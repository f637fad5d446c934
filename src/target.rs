//! Render target specification.
use vstd::prelude::*;

verus! {

/// A depth value, specifying which plane to select out of a 3D texture.
pub type Layer = u16;

/// Mipmap level to select in a texture.
pub type Level = u8;

/// A single value from a stencil buffer.
pub type Stencil = u8;

/// A screen space rectangle, covering `[x, x + w) x [y, y + h)`.
///
/// Any combination of fields is a value of this type, a zero-area one included.
#[derive(Debug, PartialEq, Eq, Structural)]
pub struct Rect {
    pub x: u16,
    pub y: u16,
    pub w: u16,
    pub h: u16,
}

impl Clone for Rect {
    fn clone(&self) -> (r: Rect)
        ensures
            r == *self,
    {
        Rect { x: self.x, y: self.y, w: self.w, h: self.h }
    }
}

/// The four components of a color, in R, G, B, A order, each held as the bit
/// pattern of an IEEE 754 single-precision float.
pub type ColorBits = [u32; 4];

/// A depth value, held as the bit pattern of an IEEE 754 single-precision
/// float. Conventionally the float lies in `[0.0, 1.0]`; nothing here enforces it.
pub type DepthBits = u32;

/// How to clear a frame. A plane whose field is `None` is not cleared; the
/// three fields are independent and any subset may be set. Values are carried
/// through unchanged, bit for bit.
#[derive(Debug)]
pub struct ClearData {
    /// If set, the color buffer of the frame will be cleared to this.
    pub color: Option<ColorBits>,
    /// If set, the depth buffer of the frame will be cleared to this.
    pub depth: Option<DepthBits>,
    /// If set, the stencil buffer of the frame will be cleared to this.
    pub stencil: Option<Stencil>,
}

impl Clone for ClearData {
    fn clone(&self) -> (r: ClearData)
        ensures
            r == *self,
    {
        ClearData { color: self.color, depth: self.depth, stencil: self.stencil }
    }
}

/// The attachment that a fragment-shader output or a clear addresses. Exactly
/// one attachment is named by each value.
#[derive(Debug, PartialEq, Eq, Structural)]
pub enum Target {
    /// Color data, at the given color attachment. A device need only expose
    /// the first one.
    Color(u8),
    /// Depth data.
    Depth,
    /// Stencil data.
    Stencil,
    /// A target for both depth and stencil data at once.
    DepthStencil,
}

impl Clone for Target {
    fn clone(&self) -> (r: Target)
        ensures
            r == *self,
    {
        match self {
            Target::Color(i) => Target::Color(*i),
            Target::Depth => Target::Depth,
            Target::Stencil => Target::Stencil,
            Target::DepthStencil => Target::DepthStencil,
        }
    }
}

/// A duplicate of a rectangle has the same four fields.
pub proof fn lemma_rect_clone_exact(r: Rect, c: Rect)
    requires
        cloned(r, c),
    ensures
        c == r,
        c.x == r.x && c.y == r.y && c.w == r.w && c.h == r.h,
{
}

/// A duplicate of a clear request keeps each of its three fields on its own:
/// an absent plane stays absent, and a present one stays present with the same
/// value, each color component included.
pub proof fn lemma_clear_data_clone_exact(d: ClearData, c: ClearData)
    requires
        cloned(d, c),
    ensures
        c == d,
        c.color is Some <==> d.color is Some,
        c.depth is Some <==> d.depth is Some,
        c.stencil is Some <==> d.stencil is Some,
        d.color is Some ==> forall|i: int|
            0 <= i < 4 ==> #[trigger] c.color->Some_0@[i] == d.color->Some_0@[i],
        d.depth is Some ==> c.depth->Some_0 == d.depth->Some_0,
        d.stencil is Some ==> c.stencil->Some_0 == d.stencil->Some_0,
{
}

/// A duplicate of a target names the same attachment: the same variant and,
/// for a color attachment, the same index.
pub proof fn lemma_target_clone_exact(t: Target, c: Target)
    requires
        cloned(t, c),
    ensures
        c == t,
        c is Color <==> t is Color,
        c is Depth <==> t is Depth,
        c is Stencil <==> t is Stencil,
        c is DepthStencil <==> t is DepthStencil,
        t is Color ==> c->Color_0 == t->Color_0,
{
}

} // verus!
