//! Vertex layout description.
//!
//! A [`VertexDeclBuilder`] accumulates attribute entries and byte-skip gaps,
//! then finalizes into an immutable [`VertexDecl`] consumed at buffer
//! creation. The two states of the little state machine are two distinct
//! types: once finalized, no further `add` or `skip` call exists to make.

use vstd::prelude::*;

use crate::RendererType;

verus! {

/// Vertex attribute.
#[derive(PartialEq, Eq, Structural, Debug, Copy, Clone)]
pub enum Attrib {
    /// Position.
    Position,
    /// Normal.
    Normal,
    /// Tangent.
    Tangent,
    /// Bitangent.
    Bitangent,
    /// Color 0.
    Color0,
    /// Color 1.
    Color1,
    /// Index list.
    Indices,
    /// Bone weight.
    Weight,
    /// Texture coordinate 0.
    TexCoord0,
    /// Texture coordinate 1.
    TexCoord1,
    /// Texture coordinate 2.
    TexCoord2,
    /// Texture coordinate 3.
    TexCoord3,
    /// Texture coordinate 4.
    TexCoord4,
    /// Texture coordinate 5.
    TexCoord5,
    /// Texture coordinate 6.
    TexCoord6,
    /// Texture coordinate 7.
    TexCoord7,
}

/// Vertex attribute component type.
///
/// For the integer types, the parameter tells whether the value is
/// normalized to the unit interval when read.
#[derive(PartialEq, Eq, Structural, Debug, Copy, Clone)]
pub enum AttribType {
    /// Unsigned 8-bit integer.
    Uint8(bool),
    /// Signed 8-bit integer.
    Int8(bool),
    /// Unsigned 10-bit integer, packed four to a 32-bit word.
    Uint10(bool),
    /// Signed 10-bit integer, packed four to a 32-bit word.
    Int10(bool),
    /// Unsigned 16-bit integer.
    Uint16(bool),
    /// Signed 16-bit integer.
    Int16(bool),
    /// 16-bit float.
    Half,
    /// 32-bit float.
    Float,
}

/// The bytes an attribute of the given component type and count occupies.
/// The 10-bit types always occupy one packed 32-bit word.
pub open spec fn attrib_type_size(kind: AttribType, count: u8) -> int {
    match kind {
        AttribType::Uint8(_) => count as int,
        AttribType::Int8(_) => count as int,
        AttribType::Uint10(_) => 4,
        AttribType::Int10(_) => 4,
        AttribType::Uint16(_) => 2 * count as int,
        AttribType::Int16(_) => 2 * count as int,
        AttribType::Half => 2 * count as int,
        AttribType::Float => 4 * count as int,
    }
}

/// Whether values of the given component type are normalized when read.
pub open spec fn attrib_normalized(kind: AttribType) -> bool {
    match kind {
        AttribType::Uint8(n) => n,
        AttribType::Int8(n) => n,
        AttribType::Uint10(n) => n,
        AttribType::Int10(n) => n,
        AttribType::Uint16(n) => n,
        AttribType::Int16(n) => n,
        AttribType::Half => false,
        AttribType::Float => false,
    }
}

/// Whether values of the given component type are read as integers rather
/// than converted to floating point: true exactly for the signed integer
/// types.
pub open spec fn attrib_as_int(kind: AttribType) -> bool {
    match kind {
        AttribType::Int8(_) => true,
        AttribType::Int10(_) => true,
        AttribType::Int16(_) => true,
        _ => false,
    }
}

/// One finalized attribute entry of a vertex layout.
#[derive(PartialEq, Eq, Structural, Debug, Copy, Clone)]
pub struct VertexAttribEntry {
    /// The attribute this entry describes.
    pub attrib: Attrib,
    /// Number of components, 1 to 4.
    pub count: u8,
    /// Component type.
    pub kind: AttribType,
    /// Whether integer values are normalized when read.
    pub normalized: bool,
    /// Whether values are read as integers.
    pub as_int: bool,
    /// Byte offset of this entry from the start of a vertex.
    pub offset: u16,
}

/// Builder for [`VertexDecl`] instances.
pub struct VertexDeclBuilder {
    entries: Vec<VertexAttribEntry>,
    stride: u16,
    renderer: RendererType,
}

/// Describes the structure of a vertex: an immutable, finalized layout
/// descriptor.
pub struct VertexDecl {
    entries: Vec<VertexAttribEntry>,
    stride: u16,
    renderer: RendererType,
}

impl VertexDeclBuilder {
    /// The entries added so far, in order.
    pub closed spec fn entries(self) -> Seq<VertexAttribEntry> {
        self.entries@
    }

    /// The bytes one vertex occupies so far, gaps included.
    pub closed spec fn stride(self) -> u16 {
        self.stride
    }

    /// The renderer this layout is built for.
    pub closed spec fn renderer_kind(self) -> RendererType {
        self.renderer
    }

    /// Adds a field to the structure descriptor, at the current end of the
    /// vertex. The entry's normalization and integer flags are derived from
    /// the component type.
    pub fn add(self, attrib: Attrib, count: u8, kind: AttribType) -> (r: VertexDeclBuilder)
        requires
            1 <= count <= 4,
            self.stride() + attrib_type_size(kind, count) <= u16::MAX,
        ensures
            r.entries() == self.entries().push(
                VertexAttribEntry {
                    attrib,
                    count,
                    kind,
                    normalized: attrib_normalized(kind),
                    as_int: attrib_as_int(kind),
                    offset: self.stride(),
                },
            ),
            r.stride() == self.stride() + attrib_type_size(kind, count),
            r.renderer_kind() == self.renderer_kind(),
    {
        let mut normalized: bool = false;
        let mut as_int: bool = false;
        let size: u16 = match kind {
            AttribType::Uint8(n) => {
                normalized = n;
                count as u16
            },
            AttribType::Int8(n) => {
                normalized = n;
                as_int = true;
                count as u16
            },
            AttribType::Uint10(n) => {
                normalized = n;
                4
            },
            AttribType::Int10(n) => {
                normalized = n;
                as_int = true;
                4
            },
            AttribType::Uint16(n) => {
                normalized = n;
                2 * count as u16
            },
            AttribType::Int16(n) => {
                normalized = n;
                as_int = true;
                2 * count as u16
            },
            AttribType::Half => 2 * count as u16,
            AttribType::Float => 4 * count as u16,
        };
        let mut entries = self.entries;
        entries.push(
            VertexAttribEntry { attrib, count, kind, normalized, as_int, offset: self.stride },
        );
        VertexDeclBuilder {
            entries,
            stride: self.stride + size,
            renderer: self.renderer,
        }
    }

    /// Indicates a gap of the given number of bytes in the vertex structure.
    pub fn skip(self, bytes: u8) -> (r: VertexDeclBuilder)
        requires
            self.stride() + bytes <= u16::MAX,
        ensures
            r.entries() == self.entries(),
            r.stride() == self.stride() + bytes,
            r.renderer_kind() == self.renderer_kind(),
    {
        VertexDeclBuilder {
            entries: self.entries,
            stride: self.stride + bytes as u16,
            renderer: self.renderer,
        }
    }

    /// Finalizes the construction of the [`VertexDecl`]. The builder is
    /// consumed: no entry can be added to a finalized layout.
    pub fn end(self) -> (d: VertexDecl)
        ensures
            d.entries() == self.entries(),
            d.stride() == self.stride(),
            d.renderer_kind() == self.renderer_kind(),
    {
        VertexDecl { entries: self.entries, stride: self.stride, renderer: self.renderer }
    }
}

impl VertexDecl {
    /// The attribute entries of the layout, in order.
    pub closed spec fn entries(self) -> Seq<VertexAttribEntry> {
        self.entries@
    }

    /// The bytes one vertex occupies, gaps included.
    pub closed spec fn stride(self) -> u16 {
        self.stride
    }

    /// The renderer this layout was built for.
    pub closed spec fn renderer_kind(self) -> RendererType {
        self.renderer
    }

    /// Creates a new vertex declaration through a builder, empty and with
    /// stride zero. Without an explicit renderer the layout is built for
    /// [`RendererType::Noop`].
    pub fn new(renderer: Option<RendererType>) -> (b: VertexDeclBuilder)
        ensures
            b.entries().len() == 0,
            b.stride() == 0,
            b.renderer_kind() == (if renderer is Some {
                renderer->0
            } else {
                RendererType::Noop
            }),
    {
        let renderer: RendererType = match renderer {
            Some(r) => r,
            None => RendererType::Noop,
        };
        VertexDeclBuilder { entries: Vec::new(), stride: 0, renderer }
    }

    /// How many attribute entries the layout holds.
    pub fn entry_count(&self) -> (n: usize)
        ensures
            n == self.entries().len(),
    {
        self.entries.len()
    }

    /// The attribute entry at the given position.
    pub fn entry_at(&self, i: usize) -> (e: VertexAttribEntry)
        requires
            i < self.entries().len(),
        ensures
            e == self.entries()[i as int],
    {
        self.entries[i]
    }

    /// The bytes one vertex occupies, gaps included.
    pub fn stride_bytes(&self) -> (s: u16)
        ensures
            s == self.stride(),
    {
        self.stride
    }
}

} // verus!
