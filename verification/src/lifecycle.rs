//! The operations a host performs around each frame.

use crate::device::{call_views, BlendFactor, Capability, GlCall, GlCallView};
use crate::objects2d::ONE_BITS;
use crate::renderer::RenderState;
use crate::state::{identity, identity_matrix, LianaState};
use vstd::prelude::*;

verus! {

/// Bit pattern of the grey level the frame is cleared to, one tenth.
pub const CLEAR_LEVEL_BITS: u32 = 0x3DCC_CCCD;

/// The calls that switch on depth testing and alpha blending, the incoming
/// colour weighted by its alpha and the stored colour by the rest.
pub open spec fn init_calls() -> Seq<GlCallView> {
    seq![
        GlCallView::Enable { capability: Capability::DepthTest },
        GlCallView::Enable { capability: Capability::Blend },
        GlCallView::BlendFunc {
            incoming: BlendFactor::SrcAlpha,
            stored: BlendFactor::OneMinusSrcAlpha,
        },
    ]
}

/// The calls that clear colour and depth, the colour to opaque dark grey.
pub open spec fn clear_calls() -> Seq<GlCallView> {
    seq![
        GlCallView::ClearColor {
            red: CLEAR_LEVEL_BITS,
            green: CLEAR_LEVEL_BITS,
            blue: CLEAR_LEVEL_BITS,
            alpha: ONE_BITS,
        },
        GlCallView::Clear { color: true, depth: true },
    ]
}

/// A fresh frame state, and the calls that prepare the pipeline for
/// blended drawing.
pub fn init() -> (begun: (LianaState, Vec<GlCall>))
    ensures
        begun.0.view@ == identity_matrix(),
        begun.0.projection@ == identity_matrix(),
        call_views(begun.1@) == init_calls(),
{
    let mut calls: Vec<GlCall> = Vec::new();
    calls.push(GlCall::Enable { capability: Capability::DepthTest });
    calls.push(GlCall::Enable { capability: Capability::Blend });
    calls.push(
        GlCall::BlendFunc { incoming: BlendFactor::SrcAlpha, stored: BlendFactor::OneMinusSrcAlpha },
    );
    assert(call_views(calls@) =~= init_calls());
    (LianaState::new(), calls)
}

/// Begins a frame whose projection is `projection`: the view becomes the
/// identity, the frame is cleared, and the batch collected since the last
/// frame is drawn and emptied.
pub fn render(
    render_state: &mut RenderState,
    liana_state: &mut LianaState,
    projection: [u32; 16],
) -> (calls: Vec<GlCall>)
    ensures
        final(liana_state).projection == projection,
        final(liana_state).view@ == identity_matrix(),
        call_views(calls@) == clear_calls() + old(render_state)@.flush_calls(
            identity_matrix(),
            projection@,
        ),
        final(render_state)@ == old(render_state)@.after_flush(),
{
    let mut calls: Vec<GlCall> = Vec::new();
    calls.push(
        GlCall::ClearColor {
            red: CLEAR_LEVEL_BITS,
            green: CLEAR_LEVEL_BITS,
            blue: CLEAR_LEVEL_BITS,
            alpha: ONE_BITS,
        },
    );
    calls.push(GlCall::Clear { color: true, depth: true });
    assert(call_views(calls@) =~= clear_calls());
    liana_state.projection = projection;
    liana_state.view = identity();
    let mut drawing = render_state.flush(liana_state);
    let ghost drawn = call_views(drawing@);
    calls.append(&mut drawing);
    assert(call_views(calls@) =~= clear_calls() + drawn);
    calls
}

/// The call that makes the whole of a `width` by `height` surface the
/// viewport.
#[allow(non_snake_case)]
pub fn setViewport(width: i32, height: i32) -> (call: GlCall)
    ensures
        call@ == (GlCallView::Viewport { x: 0, y: 0, width, height }),
{
    GlCall::Viewport { x: 0, y: 0, width, height }
}

} // verus!
