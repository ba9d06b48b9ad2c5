//! Platform data, state and flag tests.

use bgfx::engine::{Engine, EngineCall};
use bgfx::flags::{
    ClearFlags, DebugFlags, ResetFlags, StateFlags, CLEAR_COLOR, CLEAR_DEPTH, DEBUG_TEXT,
    RESET_NONE, RESET_VSYNC,
};
use bgfx::platform::PlatformData;
use bgfx::state::{State, STATE_DEFAULT};
use bgfx::BgfxError;

#[test]
fn apply_rejects_null_display() {
    let mut e = Engine::new();
    let r = PlatformData::new().window(7).apply(&mut e);
    assert_eq!(r, Err(BgfxError::InvalidDisplay));
    assert_eq!(e.call_count(), 0);
    assert!(!e.platform_ready());
}

#[test]
fn apply_rejects_null_window() {
    let mut e = Engine::new();
    let r = PlatformData::new().display(7).apply(&mut e);
    assert_eq!(r, Err(BgfxError::InvalidWindow));
    assert_eq!(e.call_count(), 0);
    assert!(!e.platform_ready());
}

#[test]
fn apply_hands_the_handles_down() {
    let mut e = Engine::new();
    let r = PlatformData::new().display(11).window(22).context(33).apply(&mut e);
    assert_eq!(r, Ok(()));
    assert!(e.platform_ready());
    assert_eq!(
        e.log(),
        &vec![EngineCall::SetPlatformData { display: 11, window: 22, context: 33 }]
    );
}

#[test]
fn default_state_bits() {
    let state = State::new();
    assert_eq!(state.to_bits(), STATE_DEFAULT);
    assert_eq!(state.to_bits(), 0x0100_0010_0000_0017);
}

#[test]
fn flag_unions() {
    let clear = ClearFlags::from_bits(CLEAR_COLOR).or(ClearFlags::from_bits(CLEAR_DEPTH));
    assert_eq!(clear.bits(), CLEAR_COLOR | CLEAR_DEPTH);
    let reset = ResetFlags::from_bits(RESET_NONE).or(ResetFlags::from_bits(RESET_VSYNC));
    assert_eq!(reset.bits(), RESET_VSYNC);
    assert_eq!(DebugFlags::from_bits(DEBUG_TEXT).bits(), DEBUG_TEXT);
    assert_eq!(StateFlags::from_bits(STATE_DEFAULT).bits(), STATE_DEFAULT);
}
