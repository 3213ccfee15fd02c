//! What is drawn on top of the visible part of a scrolled view.
use vstd::prelude::*;

use crate::stencil::stencil::Stencil;

verus! {

/// Bit pattern of the single-precision value 0.2, the depth of a scroll
/// bar (in front of the content).
pub const SCROLLBAR_DEPTH_BITS: u32 = 0x3e4c_cccd;

/// The visible stencils followed by a scroll bar for the given content
/// length, viewport size and scroll offset (all bit patterns).
pub fn inject_scrollbar(
    visible: Vec<Stencil>,
    content_length: u32,
    viewport_height: u32,
    viewport_width: u32,
    scroll_offset: u32,
) -> (r: Vec<Stencil>)
    ensures
        r@ == visible@.push(
            Stencil::ScrollBar {
                content_length: content_length,
                viewport_height: viewport_height,
                scroll_offset_y: scroll_offset,
                viewport_width: viewport_width,
                depth: SCROLLBAR_DEPTH_BITS,
            },
        ),
{
    let mut visible = visible;
    visible.push(
        Stencil::ScrollBar {
            content_length,
            viewport_height,
            scroll_offset_y: scroll_offset,
            viewport_width,
            depth: SCROLLBAR_DEPTH_BITS,
        },
    );
    visible
}

} // verus!
