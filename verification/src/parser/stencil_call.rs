//! Stencil calls such as `rect(x: 10, y: 20, width: 100, r: 0.5)`: from the
//! named arguments of a call to the stencil it draws.
use vstd::prelude::*;
use vstd::string::StringExecFns;

use crate::stencil::stencil::Stencil;
use crate::text::str_eq;

verus! {

broadcast use vstd::std_specs::vec::group_vec_axioms;

/// The value of a stencil argument as written: a number (bit pattern), a
/// string (its value, quotes removed), a boolean, or a bare name.
pub enum StencilArgValue {
    Number(u32),
    Text(String),
    Bool(bool),
    Ident(String),
}

/// The value of a stencil argument.
pub enum ArgView {
    Number(u32),
    Text(Seq<char>),
    Bool(bool),
    Ident(Seq<char>),
}

pub open spec fn arg_view(a: StencilArgValue) -> ArgView {
    match a {
        StencilArgValue::Number(n) => ArgView::Number(n),
        StencilArgValue::Text(s) => ArgView::Text(s@),
        StencilArgValue::Bool(b) => ArgView::Bool(b),
        StencilArgValue::Ident(s) => ArgView::Ident(s@),
    }
}

pub open spec fn args_view(args: Seq<(String, StencilArgValue)>) -> Seq<(Seq<char>, ArgView)> {
    args.map_values(|p: (String, StencilArgValue)| (p.0@, arg_view(p.1)))
}

/// The value given for `k`: the last argument of that name, if any.
pub open spec fn arg_of(args: Seq<(Seq<char>, ArgView)>, k: Seq<char>) -> Option<ArgView>
    decreases args.len(),
{
    if args.len() == 0 {
        None
    } else if args.last().0 == k {
        Some(args.last().1)
    } else {
        arg_of(args.drop_last(), k)
    }
}

/// The number given for `k`, or `default` when none is.
pub open spec fn num_arg(args: Seq<(Seq<char>, ArgView)>, k: Seq<char>, default: u32) -> u32 {
    match arg_of(args, k) {
        Some(ArgView::Number(n)) => n,
        _ => default,
    }
}

/// The string given for `k`, or `default` when none is.
pub open spec fn text_arg(args: Seq<(Seq<char>, ArgView)>, k: Seq<char>, default: Seq<char>) -> Seq<char> {
    match arg_of(args, k) {
        Some(ArgView::Text(s)) => s,
        _ => default,
    }
}

/// The boolean given for `k`, or `default` when none is.
pub open spec fn bool_arg(args: Seq<(Seq<char>, ArgView)>, k: Seq<char>, default: bool) -> bool {
    match arg_of(args, k) {
        Some(ArgView::Bool(b)) => b,
        _ => default,
    }
}

/// Whether some argument is a bare name, which a stencil call does not
/// accept.
pub open spec fn has_name_arg(args: Seq<(Seq<char>, ArgView)>) -> bool {
    exists|i: int| 0 <= i < args.len() && args[i].1 is Ident
}

/// Whether `kind` names a stencil.
pub open spec fn is_stencil_kind(kind: Seq<char>) -> bool {
    kind == "rect"@ || kind == "circle"@ || kind == "triangle"@ || kind == "text"@ || kind == "image"@
        || kind == "rounded_rect"@
}

/// Bit patterns of the single-precision defaults.
pub const F_ZERO: u32 = 0;
pub const F_ONE: u32 = 0x3f80_0000;
pub const F_HALF: u32 = 0x3f00_0000;
pub const F_TENTH: u32 = 0x3dcc_cccd;
pub const F_EIGHT: u32 = 0x4100_0000;
pub const F_SIXTEEN: u32 = 0x4180_0000;

/// The colour arguments `r`, `g`, `b`, `a`, each defaulting to `rgb` (the
/// first three) or 1.0 (alpha).
pub open spec fn color_args(args: Seq<(Seq<char>, ArgView)>, rgb: u32) -> [u32; 4] {
    [num_arg(args, "r"@, rgb), num_arg(args, "g"@, rgb), num_arg(args, "b"@, rgb), num_arg(args, "a"@, F_ONE)]
}

/// The point given by the arguments `kx` and `ky`, each defaulting to 0.0.
pub open spec fn point_args(args: Seq<(Seq<char>, ArgView)>, kx: Seq<char>, ky: Seq<char>) -> [u32; 2] {
    [num_arg(args, kx, F_ZERO), num_arg(args, ky, F_ZERO)]
}

/// Whether `s` is the stencil that a call of `kind` with `args` draws. A
/// missing or wrongly typed argument takes its default: position 0, width
/// and height 0, colour white (black for text) and opaque, `scroll` true,
/// depth 0.5 (0.1 for text), circle radius 1, text size 16 and font `sans`,
/// corner radius 8, empty content and path.
pub open spec fn is_call_stencil(s: Stencil, kind: Seq<char>, args: Seq<(Seq<char>, ArgView)>) -> bool {
    let scroll = bool_arg(args, "scroll"@, true);
    let depth = num_arg(args, "depth"@, F_HALF);
    if kind == "rect"@ {
        s == Stencil::Rect {
            position: point_args(args, "x"@, "y"@),
            width: num_arg(args, "width"@, F_ZERO),
            height: num_arg(args, "height"@, F_ZERO),
            color: color_args(args, F_ONE),
            scroll: scroll,
            depth: depth,
        }
    } else if kind == "circle"@ {
        s == Stencil::Circle {
            center: point_args(args, "x"@, "y"@),
            radius: num_arg(args, "radius"@, F_ONE),
            color: color_args(args, F_ONE),
            scroll: scroll,
            depth: depth,
        }
    } else if kind == "triangle"@ {
        s == Stencil::Triangle {
            p1: point_args(args, "x1"@, "y1"@),
            p2: point_args(args, "x2"@, "y2"@),
            p3: point_args(args, "x3"@, "y3"@),
            color: color_args(args, F_ONE),
            scroll: scroll,
            depth: depth,
        }
    } else if kind == "text"@ {
        match s {
            Stencil::Text { content, position, size, color, font, max_width, scroll: sc, depth: d } => {
                &&& content@ == text_arg(args, "content"@, Seq::empty())
                &&& position == point_args(args, "x"@, "y"@)
                &&& size == num_arg(args, "size"@, F_SIXTEEN)
                &&& color == color_args(args, F_ZERO)
                &&& font@ == text_arg(args, "font"@, "sans"@)
                &&& max_width is None
                &&& sc == scroll
                &&& d == num_arg(args, "depth"@, F_TENTH)
            },
            _ => false,
        }
    } else if kind == "image"@ {
        match s {
            Stencil::Image { position, width, height, path, scroll: sc, depth: d } => {
                &&& position == point_args(args, "x"@, "y"@)
                &&& width == num_arg(args, "width"@, F_ZERO)
                &&& height == num_arg(args, "height"@, F_ZERO)
                &&& path@ == text_arg(args, "path"@, Seq::empty())
                &&& sc == scroll
                &&& d == depth
            },
            _ => false,
        }
    } else if kind == "rounded_rect"@ {
        s == Stencil::RoundedRect {
            position: point_args(args, "x"@, "y"@),
            width: num_arg(args, "width"@, F_ZERO),
            height: num_arg(args, "height"@, F_ZERO),
            radius: num_arg(args, "radius"@, F_EIGHT),
            color: color_args(args, F_ONE),
            scroll: scroll,
            depth: depth,
        }
    } else {
        false
    }
}

fn find_arg(args: &Vec<(String, StencilArgValue)>, k: &str) -> (r: Option<usize>)
    ensures
        match r {
            Some(i) => i < args@.len() && arg_of(args_view(args@), k@) == Some(arg_view(args@[i as int].1)),
            None => arg_of(args_view(args@), k@) is None,
        },
{
    let ghost all = args_view(args@);
    let mut i = args.len();
    proof {
        assert(all.take(all.len() as int) =~= all);
    }
    while i > 0
        invariant
            i <= args.len(),
            all == args_view(args@),
            arg_of(all, k@) == arg_of(all.take(i as int), k@),
        decreases i,
    {
        let ghost t = all.take(i as int);
        proof {
            assert(t.drop_last() =~= all.take(i - 1));
            assert(t.last() == all[i - 1]);
        }
        if str_eq(args[i - 1].0.as_str(), k) {
            return Some(i - 1);
        }
        i = i - 1;
    }
    proof {
        assert(all.take(0) =~= Seq::<(Seq<char>, ArgView)>::empty());
    }
    None
}

fn num_of(args: &Vec<(String, StencilArgValue)>, k: &str, default: u32) -> (n: u32)
    ensures
        n == num_arg(args_view(args@), k@, default),
{
    match find_arg(args, k) {
        Some(i) => match &args[i].1 {
            StencilArgValue::Number(n) => *n,
            _ => default,
        },
        None => default,
    }
}

fn text_of(args: &Vec<(String, StencilArgValue)>, k: &str, default: &str) -> (s: String)
    ensures
        s@ == text_arg(args_view(args@), k@, default@),
{
    match find_arg(args, k) {
        Some(i) => match &args[i].1 {
            StencilArgValue::Text(s) => s.clone(),
            _ => String::from_str(default),
        },
        None => String::from_str(default),
    }
}

fn bool_of(args: &Vec<(String, StencilArgValue)>, k: &str, default: bool) -> (b: bool)
    ensures
        b == bool_arg(args_view(args@), k@, default),
{
    match find_arg(args, k) {
        Some(i) => match &args[i].1 {
            StencilArgValue::Bool(b) => *b,
            _ => default,
        },
        None => default,
    }
}

fn color_of(args: &Vec<(String, StencilArgValue)>, rgb: u32) -> (c: [u32; 4])
    ensures
        c == color_args(args_view(args@), rgb),
{
    [num_of(args, "r", rgb), num_of(args, "g", rgb), num_of(args, "b", rgb), num_of(args, "a", F_ONE)]
}

fn point_of(args: &Vec<(String, StencilArgValue)>, kx: &str, ky: &str) -> (p: [u32; 2])
    ensures
        p == point_args(args_view(args@), kx@, ky@),
{
    [num_of(args, kx, F_ZERO), num_of(args, ky, F_ZERO)]
}

/// The stencil a call of `kind` with the named `args` draws (see
/// `is_call_stencil`; a later argument of a name overrides an earlier one).
/// `None` where the call is not accepted: a bare name among the arguments,
/// or a kind that names no stencil.
pub fn stencil_from_call(kind: &str, args: &Vec<(String, StencilArgValue)>) -> (r: Option<Stencil>)
    ensures
        r is Some <==> !has_name_arg(args_view(args@)) && is_stencil_kind(kind@),
        r matches Some(s) ==> is_call_stencil(s, kind@, args_view(args@)),
{
    let ghost all = args_view(args@);
    let mut i: usize = 0;
    while i < args.len()
        invariant
            i <= args.len(),
            all == args_view(args@),
            forall|j: int| 0 <= j < i ==> (#[trigger] all[j]).1 !is Ident,
        decreases args.len() - i,
    {
        match &args[i].1 {
            StencilArgValue::Ident(_) => {
                proof {
                    assert(all[i as int].1 is Ident);
                }
                return None;
            },
            _ => {},
        }
        i = i + 1;
    }
    proof {
        assert(!has_name_arg(all));
        reveal_strlit("");
        assert(""@ =~= Seq::<char>::empty());
    }
    let scroll = bool_of(args, "scroll", true);
    if str_eq(kind, "rect") {
        Some(
            Stencil::Rect {
                position: point_of(args, "x", "y"),
                width: num_of(args, "width", F_ZERO),
                height: num_of(args, "height", F_ZERO),
                color: color_of(args, F_ONE),
                scroll,
                depth: num_of(args, "depth", F_HALF),
            },
        )
    } else if str_eq(kind, "circle") {
        Some(
            Stencil::Circle {
                center: point_of(args, "x", "y"),
                radius: num_of(args, "radius", F_ONE),
                color: color_of(args, F_ONE),
                scroll,
                depth: num_of(args, "depth", F_HALF),
            },
        )
    } else if str_eq(kind, "triangle") {
        Some(
            Stencil::Triangle {
                p1: point_of(args, "x1", "y1"),
                p2: point_of(args, "x2", "y2"),
                p3: point_of(args, "x3", "y3"),
                color: color_of(args, F_ONE),
                scroll,
                depth: num_of(args, "depth", F_HALF),
            },
        )
    } else if str_eq(kind, "text") {
        Some(
            Stencil::Text {
                content: text_of(args, "content", ""),
                position: point_of(args, "x", "y"),
                size: num_of(args, "size", F_SIXTEEN),
                color: color_of(args, F_ZERO),
                font: text_of(args, "font", "sans"),
                max_width: None,
                scroll,
                depth: num_of(args, "depth", F_TENTH),
            },
        )
    } else if str_eq(kind, "image") {
        Some(
            Stencil::Image {
                position: point_of(args, "x", "y"),
                width: num_of(args, "width", F_ZERO),
                height: num_of(args, "height", F_ZERO),
                path: text_of(args, "path", ""),
                scroll,
                depth: num_of(args, "depth", F_HALF),
            },
        )
    } else if str_eq(kind, "rounded_rect") {
        Some(
            Stencil::RoundedRect {
                position: point_of(args, "x", "y"),
                width: num_of(args, "width", F_ZERO),
                height: num_of(args, "height", F_ZERO),
                radius: num_of(args, "radius", F_EIGHT),
                color: color_of(args, F_ONE),
                scroll,
                depth: num_of(args, "depth", F_HALF),
            },
        )
    } else {
        None
    }
}

// ========================================
// Laws of stencil calls
// ========================================

/// An argument of a name gives that name its value, whatever came before;
/// an argument of another name leaves it as it was; a name no argument
/// gives takes its default.
pub proof fn lemma_arg_values(args: Seq<(Seq<char>, ArgView)>, k: Seq<char>, k2: Seq<char>, v: ArgView, n: u32, d: u32)
    ensures
        num_arg(args.push((k, ArgView::Number(n))), k, d) == n,
        k2 != k ==> num_arg(args.push((k2, v)), k, d) == num_arg(args, k, d),
        k2 != k ==> text_arg(args.push((k2, v)), k, Seq::empty()) == text_arg(args, k, Seq::empty()),
        k2 != k ==> bool_arg(args.push((k2, v)), k, true) == bool_arg(args, k, true),
        (forall|i: int| 0 <= i < args.len() ==> (#[trigger] args[i]).0 != k) ==> num_arg(args, k, d) == d,
        !(v is Number) ==> num_arg(args.push((k, v)), k, d) == d,
        v matches ArgView::Text(t) ==> text_arg(args.push((k, v)), k, Seq::empty()) == t,
        v matches ArgView::Bool(b) ==> bool_arg(args.push((k, v)), k, true) == b,
{
    assert(args.push((k, ArgView::Number(n))).drop_last() =~= args);
    assert(args.push((k2, v)).drop_last() =~= args);
    if forall|i: int| 0 <= i < args.len() ==> (#[trigger] args[i]).0 != k {
        lemma_arg_absent(args, k);
    }
}

proof fn lemma_arg_absent(args: Seq<(Seq<char>, ArgView)>, k: Seq<char>)
    requires
        forall|i: int| 0 <= i < args.len() ==> (#[trigger] args[i]).0 != k,
    ensures
        arg_of(args, k) is None,
    decreases args.len(),
{
    if args.len() > 0 {
        assert(args.last() == args[args.len() - 1]);
        lemma_arg_absent(args.drop_last(), k);
    }
}

proof fn lemma_kind_texts()
    ensures
        "rect"@.len() == 4 && "rect"@[0] == 'r',
        "circle"@.len() == 6 && "circle"@[0] == 'c',
        "triangle"@.len() == 8 && "triangle"@[0] == 't',
        "text"@.len() == 4 && "text"@[0] == 't',
        "image"@.len() == 5 && "image"@[0] == 'i',
        "rounded_rect"@.len() == 12 && "rounded_rect"@[0] == 'r',
{
    reveal_strlit("rect");
    reveal_strlit("circle");
    reveal_strlit("triangle");
    reveal_strlit("text");
    reveal_strlit("image");
    reveal_strlit("rounded_rect");
}

/// A rectangle call: the position is `x`, `y`; the size is `width`,
/// `height`; the colour is `r`, `g`, `b`, `a`.
pub proof fn lemma_rect_call(s: Stencil, args: Seq<(Seq<char>, ArgView)>)
    requires
        is_call_stencil(s, "rect"@, args),
    ensures
        s matches Stencil::Rect { position, width, height, color, scroll, depth } && position[0] == num_arg(
            args,
            "x"@,
            0,
        ) && position[1] == num_arg(args, "y"@, 0) && width == num_arg(args, "width"@, 0) && height == num_arg(
            args,
            "height"@,
            0,
        ) && color[0] == num_arg(args, "r"@, F_ONE) && color[1] == num_arg(args, "g"@, F_ONE) && color[2]
            == num_arg(args, "b"@, F_ONE) && color[3] == num_arg(args, "a"@, F_ONE) && scroll == bool_arg(
            args,
            "scroll"@,
            true,
        ) && depth == num_arg(args, "depth"@, F_HALF),
{
    lemma_kind_texts();
}

/// A circle call: the centre is `x`, `y`, the radius `radius`.
pub proof fn lemma_circle_call(s: Stencil, args: Seq<(Seq<char>, ArgView)>)
    requires
        is_call_stencil(s, "circle"@, args),
    ensures
        s matches Stencil::Circle { center, radius, color, scroll, depth } && center[0] == num_arg(args, "x"@, 0)
            && center[1] == num_arg(args, "y"@, 0) && radius == num_arg(args, "radius"@, F_ONE) && color[0]
            == num_arg(args, "r"@, F_ONE) && color[2] == num_arg(args, "b"@, F_ONE) && depth == num_arg(
            args,
            "depth"@,
            F_HALF,
        ),
{
    lemma_kind_texts();
}

/// A triangle call: vertex `k` is the point `xk`, `yk`.
pub proof fn lemma_triangle_call(s: Stencil, args: Seq<(Seq<char>, ArgView)>)
    requires
        is_call_stencil(s, "triangle"@, args),
    ensures
        s matches Stencil::Triangle { p1, p2, p3, color, scroll, depth } && p1[0] == num_arg(args, "x1"@, 0)
            && p1[1] == num_arg(args, "y1"@, 0) && p2[0] == num_arg(args, "x2"@, 0) && p2[1] == num_arg(
            args,
            "y2"@,
            0,
        ) && p3[0] == num_arg(args, "x3"@, 0) && p3[1] == num_arg(args, "y3"@, 0) && color[0] == num_arg(
            args,
            "r"@,
            F_ONE,
        ) && depth == num_arg(args, "depth"@, F_HALF),
{
    lemma_kind_texts();
}

/// A text call: `content` and `font` (default `sans`) are the strings
/// given, `size` the size (default 16), the colour defaults to black, the
/// depth to 0.1, and there is no width limit.
pub proof fn lemma_text_call(s: Stencil, args: Seq<(Seq<char>, ArgView)>)
    requires
        is_call_stencil(s, "text"@, args),
    ensures
        s matches Stencil::Text { content, position, size, color, font, max_width, scroll, depth } && content@
            == text_arg(args, "content"@, Seq::empty()) && position[0] == num_arg(args, "x"@, 0) && position[1]
            == num_arg(args, "y"@, 0) && size == num_arg(args, "size"@, F_SIXTEEN) && color[0] == num_arg(
            args,
            "r"@,
            0,
        ) && color[3] == num_arg(args, "a"@, F_ONE) && font@ == text_arg(args, "font"@, "sans"@)
            && max_width is None && depth == num_arg(args, "depth"@, F_TENTH),
{
    lemma_kind_texts();
}

/// An image call: `path` is the string given, the position `x`, `y`, the
/// size `width`, `height`.
pub proof fn lemma_image_call(s: Stencil, args: Seq<(Seq<char>, ArgView)>)
    requires
        is_call_stencil(s, "image"@, args),
    ensures
        s matches Stencil::Image { position, width, height, path, scroll, depth } && path@ == text_arg(
            args,
            "path"@,
            Seq::empty(),
        ) && position[0] == num_arg(args, "x"@, 0) && position[1] == num_arg(args, "y"@, 0) && width
            == num_arg(args, "width"@, 0) && height == num_arg(args, "height"@, 0) && depth == num_arg(
            args,
            "depth"@,
            F_HALF,
        ),
{
    lemma_kind_texts();
}

/// A rounded rectangle call: as a rectangle, with the corner radius
/// `radius` (default 8).
pub proof fn lemma_rounded_rect_call(s: Stencil, args: Seq<(Seq<char>, ArgView)>)
    requires
        is_call_stencil(s, "rounded_rect"@, args),
    ensures
        s matches Stencil::RoundedRect { position, width, height, radius, color, scroll, depth } && position[0]
            == num_arg(args, "x"@, 0) && position[1] == num_arg(args, "y"@, 0) && width == num_arg(
            args,
            "width"@,
            0,
        ) && height == num_arg(args, "height"@, 0) && radius == num_arg(args, "radius"@, F_EIGHT) && color[1]
            == num_arg(args, "g"@, F_ONE) && depth == num_arg(args, "depth"@, F_HALF),
{
    lemma_kind_texts();
}

} // verus!
