//! Vertex layout builder tests.

use bgfx::vertex::{Attrib, AttribType, VertexDecl};

#[test]
fn position_color_layout() {
    let decl = VertexDecl::new(None)
        .add(Attrib::Position, 3, AttribType::Float)
        .add(Attrib::Color0, 4, AttribType::Uint8(true))
        .end();
    assert_eq!(decl.entry_count(), 2);
    assert_eq!(decl.stride_bytes(), 16);

    let position = decl.entry_at(0);
    assert_eq!(position.attrib, Attrib::Position);
    assert_eq!(position.count, 3);
    assert_eq!(position.kind, AttribType::Float);
    assert_eq!(position.offset, 0);
    assert!(!position.normalized);
    assert!(!position.as_int);

    let color = decl.entry_at(1);
    assert_eq!(color.attrib, Attrib::Color0);
    assert_eq!(color.count, 4);
    assert_eq!(color.offset, 12);
    assert!(color.normalized);
    assert!(!color.as_int);
}

#[test]
fn skip_leaves_a_gap() {
    let decl = VertexDecl::new(None)
        .add(Attrib::Position, 2, AttribType::Int16(false))
        .skip(4)
        .add(Attrib::TexCoord0, 2, AttribType::Float)
        .end();
    assert_eq!(decl.entry_count(), 2);
    assert_eq!(decl.entry_at(0).offset, 0);
    assert!(decl.entry_at(0).as_int);
    // 4 bytes of Int16 x2, then the 4-byte gap
    assert_eq!(decl.entry_at(1).offset, 8);
    assert_eq!(decl.stride_bytes(), 16);
}

#[test]
fn packed_ten_bit_types_occupy_one_word() {
    let decl = VertexDecl::new(None)
        .add(Attrib::Normal, 3, AttribType::Uint10(true))
        .add(Attrib::Tangent, 4, AttribType::Int10(false))
        .end();
    assert_eq!(decl.entry_at(0).offset, 0);
    assert_eq!(decl.entry_at(1).offset, 4);
    assert_eq!(decl.stride_bytes(), 8);
    assert!(!decl.entry_at(0).as_int);
    assert!(decl.entry_at(1).as_int);
}

#[test]
fn empty_layout_has_zero_stride() {
    let decl = VertexDecl::new(Some(bgfx::RendererType::OpenGL)).end();
    assert_eq!(decl.entry_count(), 0);
    assert_eq!(decl.stride_bytes(), 0);
}

#[test]
fn half_and_uint16_sizes() {
    let decl = VertexDecl::new(None)
        .add(Attrib::TexCoord0, 2, AttribType::Half)
        .add(Attrib::TexCoord1, 1, AttribType::Uint16(true))
        .add(Attrib::Weight, 1, AttribType::Int8(true))
        .end();
    assert_eq!(decl.entry_at(0).offset, 0);
    assert_eq!(decl.entry_at(1).offset, 4);
    assert_eq!(decl.entry_at(2).offset, 6);
    assert_eq!(decl.stride_bytes(), 7);
    assert!(decl.entry_at(2).as_int);
    assert!(decl.entry_at(2).normalized);
}
