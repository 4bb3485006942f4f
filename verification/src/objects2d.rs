//! Vertex and instance records, and their packed 32-bit layout.
//!
//! Every coordinate, colour channel, size and radius is a single-precision
//! number. The records carry each of them as its IEEE-754 bit pattern in a
//! `u32` (what `f32::to_bits` gives), so a record is a fixed run of 32-bit
//! words that can be handed to the graphics device unchanged.

use crate::renderer::RenderState;
use vstd::prelude::*;

verus! {

/// Bytes taken by one 32-bit word of a record.
pub const BYTES_PER_WORD: usize = 4;

/// Words in one [`QuadVertex`].
pub const WORDS_PER_VERTEX: usize = 2;

/// Words in one [`InstanceData`].
pub const WORDS_PER_INSTANCE: usize = 13;

/// Bytes from one [`QuadVertex`] to the next in a vertex buffer.
pub const VERTEX_STRIDE: usize = 8;

/// Bytes from one [`InstanceData`] to the next in an instance buffer.
pub const INSTANCE_STRIDE: usize = 52;

/// Bit pattern of the number zero.
pub const ZERO_BITS: u32 = 0;

/// Bit pattern of the number one.
pub const ONE_BITS: u32 = 0x3F80_0000;

/// A corner of the unit quad that every rectangle is drawn from.
#[derive(Clone, Copy, Debug, PartialEq, Eq)]
pub struct QuadVertex {
    pub local_pos: [u32; 2],
}

/// What one rectangle contributes to a draw call.
#[derive(Clone, Copy, Debug, PartialEq, Eq)]
pub struct InstanceData {
    pub world_pos: [u32; 3],
    pub color: [u32; 4],
    pub rect_size: [u32; 2],
    pub radii: [u32; 4],
}

impl QuadVertex {
    /// The vertex as the words a vertex buffer holds for it.
    pub open spec fn words(self) -> Seq<u32> {
        self.local_pos@
    }
}

impl InstanceData {
    /// The record as the words an instance buffer holds for it: position,
    /// colour, size, radii, with nothing in between.
    pub open spec fn words(self) -> Seq<u32> {
        self.world_pos@ + self.color@ + self.rect_size@ + self.radii@
    }

    /// The record's words in buffer order.
    pub fn to_words(&self) -> (out: [u32; 13])
        ensures
            out@ == self.words(),
    {
        let out: [u32; 13] = [
            self.world_pos[0],
            self.world_pos[1],
            self.world_pos[2],
            self.color[0],
            self.color[1],
            self.color[2],
            self.color[3],
            self.rect_size[0],
            self.rect_size[1],
            self.radii[0],
            self.radii[1],
            self.radii[2],
            self.radii[3],
        ];
        assert(out@ =~= self.words());
        out
    }
}

/// The four corners of the unit quad, in triangle-strip order.
pub open spec fn unit_quad() -> Seq<QuadVertex> {
    seq![
        QuadVertex { local_pos: [ZERO_BITS, ZERO_BITS] },
        QuadVertex { local_pos: [ONE_BITS, ZERO_BITS] },
        QuadVertex { local_pos: [ZERO_BITS, ONE_BITS] },
        QuadVertex { local_pos: [ONE_BITS, ONE_BITS] },
    ]
}

/// The corners of the unit quad, in triangle-strip order.
pub fn quad_vertices() -> (out: [QuadVertex; 4])
    ensures
        out@ == unit_quad(),
{
    let out: [QuadVertex; 4] = [
        QuadVertex { local_pos: [ZERO_BITS, ZERO_BITS] },
        QuadVertex { local_pos: [ONE_BITS, ZERO_BITS] },
        QuadVertex { local_pos: [ZERO_BITS, ONE_BITS] },
        QuadVertex { local_pos: [ONE_BITS, ONE_BITS] },
    ];
    assert(out@ =~= unit_quad());
    out
}

/// The record of a rectangle with its top-left corner at (`x`, `y`) and
/// depth `z`, of the given size and colour, and with the given radii at its
/// top-left, top-right, bottom-right and bottom-left corners.
pub open spec fn rect_record(
    x: u32,
    y: u32,
    z: u32,
    width: u32,
    height: u32,
    r: u32,
    g: u32,
    b: u32,
    a: u32,
    r_tl: u32,
    r_tr: u32,
    r_br: u32,
    r_bl: u32,
) -> InstanceData {
    InstanceData {
        world_pos: [x, y, z],
        color: [r, g, b, a],
        rect_size: [width, height],
        radii: [r_tl, r_tr, r_br, r_bl],
    }
}

/// Offers one rectangle to the renderer's batch. A full batch drops it.
pub fn add_rect(
    render_state: &mut RenderState,
    x: u32,
    y: u32,
    z: u32,
    width: u32,
    height: u32,
    r: u32,
    g: u32,
    b: u32,
    a: u32,
    r_tl: u32,
    r_tr: u32,
    r_br: u32,
    r_bl: u32,
)
    ensures
        final(render_state)@ == old(render_state)@.after_submit(
            rect_record(x, y, z, width, height, r, g, b, a, r_tl, r_tr, r_br, r_bl),
        ),
{
    render_state.submit(
        InstanceData {
            world_pos: [x, y, z],
            color: [r, g, b, a],
            rect_size: [width, height],
            radii: [r_tl, r_tr, r_br, r_bl],
        },
    );
}

} // verus!
