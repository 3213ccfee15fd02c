use vstd::prelude::*;

use crate::parser::style::OverflowMode;

verus! {

/// A drawing primitive produced by layout. Coordinates, sizes, colours and
/// depths are IEEE-754 single-precision bit patterns; a depth of 0.0 is the
/// front-most layer and 1.0 the back-most.
#[derive(Debug)]
pub enum Stencil {
    Rect {
        position: [u32; 2],
        width: u32,
        height: u32,
        color: [u32; 4],
        scroll: bool,
        depth: u32,
    },
    Circle {
        center: [u32; 2],
        radius: u32,
        color: [u32; 4],
        scroll: bool,
        depth: u32,
    },
    Triangle {
        p1: [u32; 2],
        p2: [u32; 2],
        p3: [u32; 2],
        color: [u32; 4],
        scroll: bool,
        depth: u32,
    },
    Text {
        content: String,
        position: [u32; 2],
        size: u32,
        color: [u32; 4],
        font: String,
        max_width: Option<u32>,
        scroll: bool,
        depth: u32,
    },
    Image {
        position: [u32; 2],
        width: u32,
        height: u32,
        path: String,
        scroll: bool,
        depth: u32,
    },
    Group(Vec<Stencil>),
    ScrollBar {
        content_length: u32,
        viewport_height: u32,
        scroll_offset_y: u32,
        viewport_width: u32,
        depth: u32,
    },
    RoundedRect {
        position: [u32; 2],
        width: u32,
        height: u32,
        radius: u32,
        color: [u32; 4],
        scroll: bool,
        depth: u32,
    },
    /// A clipping container whose content may scroll.
    ScrollContainer {
        id: String,
        position: [u32; 2],
        width: u32,
        height: u32,
        overflow_mode: OverflowMode,
        children: Vec<Stencil>,
        depth: u32,
    },
}

/// Bit pattern of the single-precision value 0.5, the depth a group takes.
pub const GROUP_DEPTH_BITS: u32 = 0x3f00_0000;

/// The depth of a stencil, as a bit pattern.
pub open spec fn spec_stencil_depth(s: Stencil) -> u32 {
    match s {
        Stencil::Rect { depth, .. } => depth,
        Stencil::Circle { depth, .. } => depth,
        Stencil::Triangle { depth, .. } => depth,
        Stencil::Text { depth, .. } => depth,
        Stencil::Image { depth, .. } => depth,
        Stencil::ScrollBar { depth, .. } => depth,
        Stencil::RoundedRect { depth, .. } => depth,
        Stencil::ScrollContainer { depth, .. } => depth,
        Stencil::Group(_) => GROUP_DEPTH_BITS,
    }
}

/// The depth by which a stencil is drawn: its own for every primitive, 0.5
/// for a group.
pub fn get_stencil_depth(stencil: &Stencil) -> (d: u32)
    ensures
        d == spec_stencil_depth(*stencil),
{
    match stencil {
        Stencil::Rect { depth, .. } => *depth,
        Stencil::Circle { depth, .. } => *depth,
        Stencil::Triangle { depth, .. } => *depth,
        Stencil::Text { depth, .. } => *depth,
        Stencil::Image { depth, .. } => *depth,
        Stencil::ScrollBar { depth, .. } => *depth,
        Stencil::RoundedRect { depth, .. } => *depth,
        Stencil::ScrollContainer { depth, .. } => *depth,
        Stencil::Group(_) => GROUP_DEPTH_BITS,
    }
}

} // verus!
