//! Combining the styles that layout sees for one node.
use vstd::prelude::*;

use crate::parser::style::{empty_style_view, merge_view, style_view, Style};

verus! {

/// The style of a node whose styles are `first` and `second`, `second`
/// overriding `first`: the empty style when there is neither, the one style
/// when there is one, and, when there are both, every property that `second`
/// sets taken from `second` and every other one from `first` (see
/// `merge_view`).
pub fn merge_styles(first: Option<&Style>, second: Option<&Style>) -> (r: Style)
    ensures
        style_view(r) == match (first, second) {
            (None, None) => empty_style_view(),
            (Some(f), None) => style_view(*f),
            (None, Some(s)) => style_view(*s),
            (Some(f), Some(s)) => merge_view(style_view(*f), style_view(*s)),
        },
{
    match (first, second) {
        (None, None) => Style::default(),
        (Some(f), None) => f.deep_clone(),
        (None, Some(s)) => s.deep_clone(),
        (Some(f), Some(s)) => f.merged(s),
    }
}

} // verus!
