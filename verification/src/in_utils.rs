//! Small per-window drawing selections: which tessellation layout a window
//! draws with, and the vertex attribute names the shaders bind to.

use vstd::prelude::*;

verus! {

/// The vertex attributes a shader program consumes.
#[derive(Clone, Copy, Debug, PartialEq, Eq, Structural)]
pub enum Semantics {
    Position,
    Color,
}

/// A per-vertex color, one byte per channel.
#[derive(Clone, Copy, Debug, PartialEq, Eq)]
pub struct Colors {
    pub color: [u8; 3],
}

/// How a window's triangles are handed to the GPU: interleaved or
/// deinterleaved vertices, with or without an index buffer.
#[derive(Clone, Copy, Debug, PartialEq, Eq, Structural)]
pub enum TessMethod {
    Direct,
    Indexed,
    DirectDeinter,
    IndexedDeinter,
}

impl TessMethod {
    /// The method that follows `m` in the cycle
    /// `Direct -> Indexed -> DirectDeinter -> IndexedDeinter -> Direct`.
    pub open spec fn spec_toggle(m: TessMethod) -> TessMethod {
        match m {
            TessMethod::Direct => TessMethod::Indexed,
            TessMethod::Indexed => TessMethod::DirectDeinter,
            TessMethod::DirectDeinter => TessMethod::IndexedDeinter,
            TessMethod::IndexedDeinter => TessMethod::Direct,
        }
    }

    /// Step to the next tessellation method in the cycle.
    pub fn toggle(self) -> (next: Self)
        ensures
            next == TessMethod::spec_toggle(self),
    {
        match self {
            TessMethod::Direct => TessMethod::Indexed,
            TessMethod::Indexed => TessMethod::DirectDeinter,
            TessMethod::DirectDeinter => TessMethod::IndexedDeinter,
            TessMethod::IndexedDeinter => TessMethod::Direct,
        }
    }
}

} // verus!
