//! Turning a style object literal (`{ color: "red", padding: 8, ... }`)
//! into a `Style`.
use vstd::prelude::*;

use crate::parser::ast::{expr_view, DimensionValue, Expr};
use crate::parser::style::{
    empty_style_view, rules_view, style_view, Align, ResponsiveRule, Rounded, RuleView, Style,
    StyleView, WrapMode,
};
use crate::parser::utils::{
    color_from_expr, edges_from_expr, size_from_expr, spec_color_from_expr, spec_edges_from_expr,
    spec_size_from_expr, spec_to_lowercase, to_lowercase,
};
use crate::text::{contains_text, str_contains, str_eq};

verus! {

broadcast use vstd::std_specs::vec::group_vec_axioms;

/// Whether a style key is a responsive condition such as
/// `window.width <= 1000`: it mentions `window.width` or `window.height`
/// and a comparison.
pub open spec fn is_responsive_key(k: Seq<char>) -> bool {
    &&& (contains_text(k, "window.width"@) || contains_text(k, "window.height"@))
    &&& (contains_text(k, "<="@) || contains_text(k, ">="@) || contains_text(k, "<"@)
        || contains_text(k, ">"@) || contains_text(k, "=="@))
}

/// Whether a style key is a responsive condition (see `is_responsive_key`).
pub fn responsive_key(k: &str) -> (b: bool)
    ensures
        b == is_responsive_key(k@),
{
    let window = str_contains(k, "window.width") || str_contains(k, "window.height");
    let compare = str_contains(k, "<=") || str_contains(k, ">=") || str_contains(k, "<")
        || str_contains(k, ">") || str_contains(k, "==");
    window && compare
}

/// The wrap mode a lowercase name selects: `none` never wraps, anything
/// else wraps.
pub open spec fn wrap_named(lower: Seq<char>) -> WrapMode {
    if lower == "none"@ {
        WrapMode::NoWrap
    } else {
        WrapMode::Auto
    }
}

/// The alignment a lowercase name selects, if any.
pub open spec fn align_named(lower: Seq<char>) -> Option<Align> {
    if lower == "left"@ {
        Some(Align::Left)
    } else if lower == "center"@ {
        Some(Align::Center)
    } else if lower == "right"@ {
        Some(Align::Right)
    } else if lower == "top"@ {
        Some(Align::Top)
    } else if lower == "bottom"@ {
        Some(Align::Bottom)
    } else {
        None
    }
}

/// A dimension-valued property: a dimension sets it, anything else leaves
/// the style as it is.
pub open spec fn dimension_of(v: Expr) -> Option<DimensionValue> {
    match v {
        Expr::Dimension(d) => Some(d),
        _ => None,
    }
}

/// The style after the property `k: v`. `calc` is the static value of `v`
/// where `v` is a calc expression (`None` where it has none, as when its
/// units differ). An unknown key, or a value of the wrong kind, changes
/// nothing.
pub open spec fn apply_property(s: StyleView, k: Seq<char>, v: Expr, calc: Option<DimensionValue>) -> StyleView {
    if k == "color"@ {
        StyleView { color: spec_color_from_expr(v), ..s }
    } else if k == "background"@ {
        StyleView { background: spec_color_from_expr(v), ..s }
    } else if k == "border_color"@ {
        StyleView { border_color: spec_color_from_expr(v), ..s }
    } else if k == "padding"@ {
        StyleView { padding: spec_edges_from_expr(v), ..s }
    } else if k == "margin"@ {
        StyleView { margin: spec_edges_from_expr(v), ..s }
    } else if k == "size"@ {
        StyleView { size: spec_size_from_expr(v), ..s }
    } else if k == "width"@ {
        match v {
            Expr::Number(w) => StyleView { width: Some(w), ..s },
            Expr::Dimension(d) => StyleView { relative_width: Some(d), ..s },
            Expr::CalcExpr(_) => match calc {
                Some(d) => StyleView { relative_width: Some(d), ..s },
                None => StyleView { width_expr: Some(expr_view(v)), ..s },
            },
            _ => s,
        }
    } else if k == "height"@ {
        match v {
            Expr::Number(h) => StyleView { height: Some(h), ..s },
            Expr::Dimension(d) => StyleView { relative_height: Some(d), ..s },
            Expr::CalcExpr(_) => match calc {
                Some(d) => StyleView { relative_height: Some(d), ..s },
                None => StyleView { height_expr: Some(expr_view(v)), ..s },
            },
            _ => s,
        }
    } else if k == "font_size"@ {
        match v {
            Expr::Number(n) => StyleView { font_size: Some(n), ..s },
            Expr::Dimension(d) => StyleView { relative_font_size: Some(d), ..s },
            _ => s,
        }
    } else if k == "font"@ {
        match v {
            Expr::String(f) => StyleView { font: Some(f), ..s },
            _ => s,
        }
    } else if k == "spacing"@ {
        match v {
            Expr::Number(n) => StyleView { spacing: Some(n), ..s },
            Expr::Dimension(d) => StyleView { relative_spacing: Some(d), ..s },
            _ => s,
        }
    } else if k == "gap"@ {
        match v {
            Expr::Number(n) => StyleView { spacing: Some(n), gap: None, ..s },
            Expr::Dimension(d) => StyleView { gap: Some(d), relative_spacing: Some(d), ..s },
            _ => s,
        }
    } else if k == "card"@ {
        match v {
            Expr::Bool(c) => StyleView { card: Some(c), ..s },
            _ => s,
        }
    } else if k == "rounded"@ {
        match v {
            Expr::Number(r) => StyleView { rounded: Some(Rounded::Px(r)), ..s },
            Expr::Bool(b) => StyleView {
                rounded: if b {
                    Some(Rounded::On)
                } else {
                    None
                },
                ..s
            },
            Expr::Dimension(d) => StyleView { rounded: Some(Rounded::Px(d.value)), ..s },
            _ => s,
        }
    } else if k == "max_width"@ {
        if dimension_of(v) is Some {
            StyleView { max_width: dimension_of(v), ..s }
        } else {
            s
        }
    } else if k == "min_width"@ {
        if dimension_of(v) is Some {
            StyleView { min_width: dimension_of(v), ..s }
        } else {
            s
        }
    } else if k == "min_height"@ {
        if dimension_of(v) is Some {
            StyleView { min_height: dimension_of(v), ..s }
        } else {
            s
        }
    } else if k == "margin_top"@ {
        if dimension_of(v) is Some {
            StyleView { margin_top: dimension_of(v), ..s }
        } else {
            s
        }
    } else if k == "margin_bottom"@ {
        if dimension_of(v) is Some {
            StyleView { margin_bottom: dimension_of(v), ..s }
        } else {
            s
        }
    } else if k == "margin_left"@ {
        if dimension_of(v) is Some {
            StyleView { margin_left: dimension_of(v), ..s }
        } else {
            s
        }
    } else if k == "margin_right"@ {
        if dimension_of(v) is Some {
            StyleView { margin_right: dimension_of(v), ..s }
        } else {
            s
        }
    } else if k == "line_height"@ {
        match v {
            Expr::Number(n) => StyleView { line_height: Some(n), ..s },
            _ => s,
        }
    } else if k == "font_weight"@ {
        match v {
            Expr::String(w) => StyleView { font_weight: Some(w), ..s },
            _ => s,
        }
    } else if k == "font_family"@ {
        match v {
            Expr::String(f) => StyleView { font_family: Some(f), ..s },
            _ => s,
        }
    } else if k == "wrap"@ {
        match v {
            Expr::String(w) => StyleView { wrap: Some(wrap_named(spec_to_lowercase(w@))), ..s },
            _ => s,
        }
    } else if k == "align"@ {
        match v {
            Expr::String(a) => StyleView { align: align_named(spec_to_lowercase(a@)), ..s },
            _ => s,
        }
    } else {
        s
    }
}

/// What the caller supplies for the properties of a style object literal,
/// entry `i` for property `i`: the parsed condition of a responsive key, the
/// static value of a calc expression, and the same for a nested object
/// literal. A missing entry counts as `None`.
pub struct StyleInputs {
    pub conditions: Vec<Option<Expr>>,
    pub calcs: Vec<Option<DimensionValue>>,
    pub nested: Vec<Option<StyleInputs>>,
}

/// Entry `i` of a list, `None` where the list has none.
pub open spec fn entry<T>(s: Seq<Option<T>>, i: int) -> Option<T> {
    if 0 <= i < s.len() {
        s[i]
    } else {
        None
    }
}

pub open spec fn condition_at(inp: Option<StyleInputs>, i: int) -> Option<Expr> {
    match inp {
        Some(x) => entry(x.conditions@, i),
        None => None,
    }
}

pub open spec fn calc_at(inp: Option<StyleInputs>, i: int) -> Option<DimensionValue> {
    match inp {
        Some(x) => entry(x.calcs@, i),
        None => None,
    }
}

pub open spec fn nested_at(inp: Option<StyleInputs>, i: int) -> Option<StyleInputs> {
    match inp {
        Some(x) => entry(x.nested@, i),
        None => None,
    }
}

/// The number of properties of an object literal (0 for anything else).
pub open spec fn object_len(e: Expr) -> nat {
    match e {
        Expr::Object(kvs) => kvs@.len(),
        _ => 0,
    }
}

/// The style the first `n` properties of the object literal `e` give, read
/// in order from the empty style. A property whose key is a responsive
/// condition, whose value is an object literal and whose parsed condition
/// is supplied adds the rule with that condition and the style that the
/// nested object gives (by the same reading, with its own inputs) and sets
/// nothing else; any other property is applied (see `apply_property`).
pub open spec fn pairs_style(e: Expr, n: nat, inp: Option<StyleInputs>) -> StyleView
    decreases e, n,
{
    match e {
        Expr::Object(kvs) => if n == 0 || n > kvs@.len() {
            empty_style_view()
        } else {
            let i = n - 1;
            let s = pairs_style(e, (n - 1) as nat, inp);
            let k = kvs@[i].0@;
            let v = kvs@[i].1;
            if is_responsive_key(k) && v is Object && condition_at(inp, i) is Some {
                proof {
                    assert(decreases_to!(e => kvs@[i].1));
                }
                StyleView {
                    responsive_rules: s.responsive_rules.push(
                        RuleView {
                            condition: expr_view(condition_at(inp, i)->0),
                            style: Box::new(pairs_style(v, object_len(v), nested_at(inp, i))),
                        },
                    ),
                    ..s
                }
            } else {
                apply_property(s, k, v, calc_at(inp, i))
            }
        },
        _ => empty_style_view(),
    }
}

/// The style an expression gives (see `pairs_style`): for an object
/// literal, all its properties; for anything else, the empty style.
pub open spec fn style_of(e: Expr, inp: Option<StyleInputs>) -> StyleView {
    pairs_style(e, object_len(e), inp)
}

pub open spec fn opt_inputs(o: Option<&StyleInputs>) -> Option<StyleInputs> {
    match o {
        Some(x) => Some(*x),
        None => None,
    }
}

fn dimension_exec(v: &Expr) -> (d: Option<DimensionValue>)
    ensures
        d == dimension_of(*v),
{
    match v {
        Expr::Dimension(d) => Some(*d),
        _ => None,
    }
}

fn wrap_exec(w: &String) -> (m: WrapMode)
    ensures
        m == wrap_named(spec_to_lowercase(w@)),
{
    let lower = to_lowercase(w.as_str());
    if str_eq(lower.as_str(), "none") {
        WrapMode::NoWrap
    } else {
        WrapMode::Auto
    }
}

fn align_exec(a: &String) -> (r: Option<Align>)
    ensures
        r == align_named(spec_to_lowercase(a@)),
{
    let lower = to_lowercase(a.as_str());
    let l = lower.as_str();
    if str_eq(l, "left") {
        Some(Align::Left)
    } else if str_eq(l, "center") {
        Some(Align::Center)
    } else if str_eq(l, "right") {
        Some(Align::Right)
    } else if str_eq(l, "top") {
        Some(Align::Top)
    } else if str_eq(l, "bottom") {
        Some(Align::Bottom)
    } else {
        None
    }
}

/// Applies the property `k: v` to a style (see `apply_property`).
#[verifier::rlimit(60)]
pub fn set_property(s: &mut Style, k: &str, v: &Expr, calc: Option<DimensionValue>)
    ensures
        style_view(*final(s)) == apply_property(style_view(*old(s)), k@, *v, calc),
{
    if str_eq(k, "color") {
        s.color = color_from_expr(v);
    } else if str_eq(k, "background") {
        s.background = color_from_expr(v);
    } else if str_eq(k, "border_color") {
        s.border_color = color_from_expr(v);
    } else if str_eq(k, "padding") {
        s.padding = edges_from_expr(v);
    } else if str_eq(k, "margin") {
        s.margin = edges_from_expr(v);
    } else if str_eq(k, "size") {
        s.size = size_from_expr(v);
    } else if str_eq(k, "width") {
        match v {
            Expr::Number(w) => s.width = Some(*w),
            Expr::Dimension(d) => s.relative_width = Some(*d),
            Expr::CalcExpr(_) => match calc {
                Some(d) => s.relative_width = Some(d),
                None => s.width_expr = Some(v.deep_clone()),
            },
            _ => {},
        }
    } else if str_eq(k, "height") {
        match v {
            Expr::Number(h) => s.height = Some(*h),
            Expr::Dimension(d) => s.relative_height = Some(*d),
            Expr::CalcExpr(_) => match calc {
                Some(d) => s.relative_height = Some(d),
                None => s.height_expr = Some(v.deep_clone()),
            },
            _ => {},
        }
    } else if str_eq(k, "font_size") {
        match v {
            Expr::Number(n) => s.font_size = Some(*n),
            Expr::Dimension(d) => s.relative_font_size = Some(*d),
            _ => {},
        }
    } else if str_eq(k, "font") {
        match v {
            Expr::String(f) => s.font = Some(f.clone()),
            _ => {},
        }
    } else if str_eq(k, "spacing") {
        match v {
            Expr::Number(n) => s.spacing = Some(*n),
            Expr::Dimension(d) => s.relative_spacing = Some(*d),
            _ => {},
        }
    } else if str_eq(k, "gap") {
        match v {
            Expr::Number(n) => {
                s.spacing = Some(*n);
                s.gap = None;
            },
            Expr::Dimension(d) => {
                s.gap = Some(*d);
                s.relative_spacing = Some(*d);
            },
            _ => {},
        }
    } else if str_eq(k, "card") {
        match v {
            Expr::Bool(c) => s.card = Some(*c),
            _ => {},
        }
    } else if str_eq(k, "rounded") {
        match v {
            Expr::Number(r) => s.rounded = Some(Rounded::Px(*r)),
            Expr::Bool(b) => {
                if *b {
                    s.rounded = Some(Rounded::On);
                } else {
                    s.rounded = None;
                }
            },
            Expr::Dimension(d) => s.rounded = Some(Rounded::Px(d.value)),
            _ => {},
        }
    } else if str_eq(k, "max_width") {
        let d = dimension_exec(v);
        if d.is_some() {
            s.max_width = d;
        }
    } else if str_eq(k, "min_width") {
        let d = dimension_exec(v);
        if d.is_some() {
            s.min_width = d;
        }
    } else if str_eq(k, "min_height") {
        let d = dimension_exec(v);
        if d.is_some() {
            s.min_height = d;
        }
    } else if str_eq(k, "margin_top") {
        let d = dimension_exec(v);
        if d.is_some() {
            s.margin_top = d;
        }
    } else if str_eq(k, "margin_bottom") {
        let d = dimension_exec(v);
        if d.is_some() {
            s.margin_bottom = d;
        }
    } else if str_eq(k, "margin_left") {
        let d = dimension_exec(v);
        if d.is_some() {
            s.margin_left = d;
        }
    } else if str_eq(k, "margin_right") {
        let d = dimension_exec(v);
        if d.is_some() {
            s.margin_right = d;
        }
    } else if str_eq(k, "line_height") {
        match v {
            Expr::Number(n) => s.line_height = Some(*n),
            _ => {},
        }
    } else if str_eq(k, "font_weight") {
        match v {
            Expr::String(w) => s.font_weight = Some(w.clone()),
            _ => {},
        }
    } else if str_eq(k, "font_family") {
        match v {
            Expr::String(f) => s.font_family = Some(f.clone()),
            _ => {},
        }
    } else if str_eq(k, "wrap") {
        match v {
            Expr::String(w) => s.wrap = Some(wrap_exec(w)),
            _ => {},
        }
    } else if str_eq(k, "align") {
        match v {
            Expr::String(a) => s.align = align_exec(a),
            _ => {},
        }
    }
}

fn style_with(expr: &Expr, inputs: Option<&StyleInputs>) -> (s: Style)
    ensures
        style_view(s) == style_of(*expr, opt_inputs(inputs)),
    decreases expr,
{
    let ghost inp = opt_inputs(inputs);
    let mut s = Style::default();
    match expr {
        Expr::Object(kvs) => {
            let mut i: usize = 0;
            while i < kvs.len()
                invariant
                    i <= kvs.len(),
                    inp == opt_inputs(inputs),
                    *expr == Expr::Object(*kvs),
                    style_view(s) == pairs_style(*expr, i as nat, inp),
                decreases kvs.len() - i,
            {
                let k = kvs[i].0.as_str();
                let v = &kvs[i].1;
                let is_object = match v {
                    Expr::Object(_) => true,
                    _ => false,
                };
                let cond: Option<&Expr> = match inputs {
                    Some(x) => if i < x.conditions.len() {
                        match &x.conditions[i] {
                            Some(c) => Some(c),
                            None => None,
                        }
                    } else {
                        None
                    },
                    None => None,
                };
                let calc: Option<DimensionValue> = match inputs {
                    Some(x) => if i < x.calcs.len() {
                        x.calcs[i]
                    } else {
                        None
                    },
                    None => None,
                };
                proof {
                    assert(match cond {
                        Some(c) => condition_at(inp, i as int) == Some(*c),
                        None => condition_at(inp, i as int) is None,
                    });
                    assert(calc == calc_at(inp, i as int));
                }
                if responsive_key(k) && is_object && cond.is_some() {
                    let nested: Option<&StyleInputs> = match inputs {
                        Some(x) => if i < x.nested.len() {
                            match &x.nested[i] {
                                Some(n) => Some(n),
                                None => None,
                            }
                        } else {
                            None
                        },
                        None => None,
                    };
                    proof {
                        assert(opt_inputs(nested) == nested_at(inp, i as int));
                        assert(decreases_to!(*expr => kvs@[i as int].1));
                    }
                    let inner = style_with(v, nested);
                    let c = match cond {
                        Some(c) => c.deep_clone(),
                        None => Expr::Bool(false),
                    };
                    let ghost before = s.responsive_rules@;
                    let rule = ResponsiveRule { condition: c, style: Box::new(inner) };
                    s.responsive_rules.push(rule);
                    proof {
                        assert(s.responsive_rules@.drop_last() == before);
                        assert(rules_view(s.responsive_rules@) == rules_view(before).push(
                            RuleView { condition: expr_view(rule.condition), style: Box::new(style_view(*rule.style)) },
                        ));
                    }
                } else {
                    set_property(&mut s, k, v, calc);
                }
                i = i + 1;
            }
            s
        },
        _ => s,
    }
}

/// The style an expression gives (see `style_of`): for an object literal,
/// its properties read in order, responsive properties adding rules whose
/// styles are what their nested objects give; for anything else, the empty
/// style. `inputs` holds what parsing and floating-point evaluation supply:
/// the conditions of responsive keys and the static values of calc
/// expressions, for this object and, nested, for the objects inside it.
pub fn style_from_expr(expr: &Expr, inputs: &StyleInputs) -> (s: Style)
    ensures
        style_view(s) == style_of(*expr, Some(*inputs)),
{
    style_with(expr, Some(inputs))
}

// ========================================
// The property table
// ========================================

/// The texts of the property names and of the alignment and wrap names,
/// enough of them to tell any two apart.
proof fn lemma_name_texts()
    ensures
        "color"@.len() == 5,
        "color"@[0] == 'c',
        "color"@[1] == 'o',
        "color"@[2] == 'l',
        "background"@.len() == 10,
        "background"@[0] == 'b',
        "background"@[1] == 'a',
        "background"@[2] == 'c',
        "background"@[5] == 'r',
        "background"@[7] == 'u',
        "background"@[9] == 'd',
        "border_color"@.len() == 12,
        "border_color"@[0] == 'b',
        "border_color"@[1] == 'o',
        "border_color"@[2] == 'r',
        "border_color"@[5] == 'r',
        "border_color"@[7] == 'c',
        "border_color"@[9] == 'l',
        "padding"@.len() == 7,
        "padding"@[0] == 'p',
        "padding"@[1] == 'a',
        "padding"@[2] == 'd',
        "padding"@[5] == 'n',
        "margin"@.len() == 6,
        "margin"@[0] == 'm',
        "margin"@[1] == 'a',
        "margin"@[2] == 'r',
        "margin"@[5] == 'n',
        "size"@.len() == 4,
        "size"@[0] == 's',
        "size"@[1] == 'i',
        "size"@[2] == 'z',
        "width"@.len() == 5,
        "width"@[0] == 'w',
        "width"@[1] == 'i',
        "width"@[2] == 'd',
        "height"@.len() == 6,
        "height"@[0] == 'h',
        "height"@[1] == 'e',
        "height"@[2] == 'i',
        "height"@[5] == 't',
        "font_size"@.len() == 9,
        "font_size"@[0] == 'f',
        "font_size"@[1] == 'o',
        "font_size"@[2] == 'n',
        "font_size"@[5] == 's',
        "font_size"@[7] == 'z',
        "font"@.len() == 4,
        "font"@[0] == 'f',
        "font"@[1] == 'o',
        "font"@[2] == 'n',
        "spacing"@.len() == 7,
        "spacing"@[0] == 's',
        "spacing"@[1] == 'p',
        "spacing"@[2] == 'a',
        "spacing"@[5] == 'n',
        "gap"@.len() == 3,
        "gap"@[0] == 'g',
        "gap"@[1] == 'a',
        "gap"@[2] == 'p',
        "card"@.len() == 4,
        "card"@[0] == 'c',
        "card"@[1] == 'a',
        "card"@[2] == 'r',
        "rounded"@.len() == 7,
        "rounded"@[0] == 'r',
        "rounded"@[1] == 'o',
        "rounded"@[2] == 'u',
        "rounded"@[5] == 'e',
        "max_width"@.len() == 9,
        "max_width"@[0] == 'm',
        "max_width"@[1] == 'a',
        "max_width"@[2] == 'x',
        "max_width"@[5] == 'i',
        "max_width"@[7] == 't',
        "min_width"@.len() == 9,
        "min_width"@[0] == 'm',
        "min_width"@[1] == 'i',
        "min_width"@[2] == 'n',
        "min_width"@[5] == 'i',
        "min_width"@[7] == 't',
        "min_height"@.len() == 10,
        "min_height"@[0] == 'm',
        "min_height"@[1] == 'i',
        "min_height"@[2] == 'n',
        "min_height"@[5] == 'e',
        "min_height"@[7] == 'g',
        "min_height"@[9] == 't',
        "margin_top"@.len() == 10,
        "margin_top"@[0] == 'm',
        "margin_top"@[1] == 'a',
        "margin_top"@[2] == 'r',
        "margin_top"@[5] == 'n',
        "margin_top"@[7] == 't',
        "margin_top"@[9] == 'p',
        "margin_bottom"@.len() == 13,
        "margin_bottom"@[0] == 'm',
        "margin_bottom"@[1] == 'a',
        "margin_bottom"@[2] == 'r',
        "margin_bottom"@[5] == 'n',
        "margin_bottom"@[7] == 'b',
        "margin_bottom"@[9] == 't',
        "margin_left"@.len() == 11,
        "margin_left"@[0] == 'm',
        "margin_left"@[1] == 'a',
        "margin_left"@[2] == 'r',
        "margin_left"@[5] == 'n',
        "margin_left"@[7] == 'l',
        "margin_left"@[9] == 'f',
        "margin_right"@.len() == 12,
        "margin_right"@[0] == 'm',
        "margin_right"@[1] == 'a',
        "margin_right"@[2] == 'r',
        "margin_right"@[5] == 'n',
        "margin_right"@[7] == 'r',
        "margin_right"@[9] == 'g',
        "line_height"@.len() == 11,
        "line_height"@[0] == 'l',
        "line_height"@[1] == 'i',
        "line_height"@[2] == 'n',
        "line_height"@[5] == 'h',
        "line_height"@[7] == 'i',
        "line_height"@[9] == 'h',
        "font_weight"@.len() == 11,
        "font_weight"@[0] == 'f',
        "font_weight"@[1] == 'o',
        "font_weight"@[2] == 'n',
        "font_weight"@[5] == 'w',
        "font_weight"@[7] == 'i',
        "font_weight"@[9] == 'h',
        "font_family"@.len() == 11,
        "font_family"@[0] == 'f',
        "font_family"@[1] == 'o',
        "font_family"@[2] == 'n',
        "font_family"@[5] == 'f',
        "font_family"@[7] == 'm',
        "font_family"@[9] == 'l',
        "wrap"@.len() == 4,
        "wrap"@[0] == 'w',
        "wrap"@[1] == 'r',
        "wrap"@[2] == 'a',
        "align"@.len() == 5,
        "align"@[0] == 'a',
        "align"@[1] == 'l',
        "align"@[2] == 'i',
        "none"@.len() == 4,
        "none"@[0] == 'n',
        "none"@[1] == 'o',
        "none"@[2] == 'n',
        "left"@.len() == 4,
        "left"@[0] == 'l',
        "left"@[1] == 'e',
        "left"@[2] == 'f',
        "center"@.len() == 6,
        "center"@[0] == 'c',
        "center"@[1] == 'e',
        "center"@[2] == 'n',
        "center"@[5] == 'r',
        "right"@.len() == 5,
        "right"@[0] == 'r',
        "right"@[1] == 'i',
        "right"@[2] == 'g',
        "top"@.len() == 3,
        "top"@[0] == 't',
        "top"@[1] == 'o',
        "top"@[2] == 'p',
        "bottom"@.len() == 6,
        "bottom"@[0] == 'b',
        "bottom"@[1] == 'o',
        "bottom"@[2] == 't',
        "bottom"@[5] == 'm',
{
    reveal_strlit("color");
    reveal_strlit("background");
    reveal_strlit("border_color");
    reveal_strlit("padding");
    reveal_strlit("margin");
    reveal_strlit("size");
    reveal_strlit("width");
    reveal_strlit("height");
    reveal_strlit("font_size");
    reveal_strlit("font");
    reveal_strlit("spacing");
    reveal_strlit("gap");
    reveal_strlit("card");
    reveal_strlit("rounded");
    reveal_strlit("max_width");
    reveal_strlit("min_width");
    reveal_strlit("min_height");
    reveal_strlit("margin_top");
    reveal_strlit("margin_bottom");
    reveal_strlit("margin_left");
    reveal_strlit("margin_right");
    reveal_strlit("line_height");
    reveal_strlit("font_weight");
    reveal_strlit("font_family");
    reveal_strlit("wrap");
    reveal_strlit("align");
    reveal_strlit("none");
    reveal_strlit("left");
    reveal_strlit("center");
    reveal_strlit("right");
    reveal_strlit("top");
    reveal_strlit("bottom");
}

/// `color` takes the colour its value denotes (see `spec_color_from_expr`).
pub proof fn lemma_property_color(s: StyleView, n: u32, d: DimensionValue, b: bool, t: String, e: Expr, calc: Option<DimensionValue>)
    ensures
        apply_property(s, "color"@, e, calc) == (StyleView { color: spec_color_from_expr(e), ..s }),
{
    lemma_name_texts();
}

/// `background` takes the colour its value denotes (see `spec_color_from_expr`).
pub proof fn lemma_property_background(s: StyleView, n: u32, d: DimensionValue, b: bool, t: String, e: Expr, calc: Option<DimensionValue>)
    ensures
        apply_property(s, "background"@, e, calc) == (StyleView { background: spec_color_from_expr(e), ..s }),
{
    lemma_name_texts();
}

/// `border_color` takes the colour its value denotes (see `spec_color_from_expr`).
pub proof fn lemma_property_border_color(s: StyleView, n: u32, d: DimensionValue, b: bool, t: String, e: Expr, calc: Option<DimensionValue>)
    ensures
        apply_property(s, "border_color"@, e, calc) == (StyleView { border_color: spec_color_from_expr(e), ..s }),
{
    lemma_name_texts();
}

/// `padding` takes the edges its value denotes (see `spec_edges_from_expr`).
pub proof fn lemma_property_padding(s: StyleView, n: u32, d: DimensionValue, b: bool, t: String, e: Expr, calc: Option<DimensionValue>)
    ensures
        apply_property(s, "padding"@, e, calc) == (StyleView { padding: spec_edges_from_expr(e), ..s }),
{
    lemma_name_texts();
}

/// `margin` takes the edges its value denotes (see `spec_edges_from_expr`).
pub proof fn lemma_property_margin(s: StyleView, n: u32, d: DimensionValue, b: bool, t: String, e: Expr, calc: Option<DimensionValue>)
    ensures
        apply_property(s, "margin"@, e, calc) == (StyleView { margin: spec_edges_from_expr(e), ..s }),
{
    lemma_name_texts();
}

/// `size` takes the size its value denotes (see `spec_size_from_expr`).
pub proof fn lemma_property_size(s: StyleView, n: u32, d: DimensionValue, b: bool, t: String, e: Expr, calc: Option<DimensionValue>)
    ensures
        apply_property(s, "size"@, e, calc) == (StyleView { size: spec_size_from_expr(e), ..s }),
{
    lemma_name_texts();
}

/// `width`: a number sets the absolute width, a dimension the relative one; a calc expression sets the relative one to its static value, or is kept as an expression when it has none; anything else changes nothing.
pub proof fn lemma_property_width(s: StyleView, n: u32, d: DimensionValue, b: bool, t: String, e: Expr, calc: Option<DimensionValue>)
    ensures
        apply_property(s, "width"@, Expr::Number(n), calc) == (StyleView { width: Some(n), ..s }),
        apply_property(s, "width"@, Expr::Dimension(d), calc) == (StyleView { relative_width: Some(d), ..s }),
        e is CalcExpr && calc == Some(d) ==> apply_property(s, "width"@, e, calc) == (StyleView { relative_width: Some(d), ..s }),
        e is CalcExpr && calc is None ==> apply_property(s, "width"@, e, calc) == (StyleView { width_expr: Some(expr_view(e)), ..s }),
        !(e is Number || e is Dimension || e is CalcExpr) ==> apply_property(s, "width"@, e, calc) == s,
{
    lemma_name_texts();
}

/// `height`: a number sets the absolute height, a dimension the relative one; a calc expression sets the relative one to its static value, or is kept as an expression when it has none; anything else changes nothing.
pub proof fn lemma_property_height(s: StyleView, n: u32, d: DimensionValue, b: bool, t: String, e: Expr, calc: Option<DimensionValue>)
    ensures
        apply_property(s, "height"@, Expr::Number(n), calc) == (StyleView { height: Some(n), ..s }),
        apply_property(s, "height"@, Expr::Dimension(d), calc) == (StyleView { relative_height: Some(d), ..s }),
        e is CalcExpr && calc == Some(d) ==> apply_property(s, "height"@, e, calc) == (StyleView { relative_height: Some(d), ..s }),
        e is CalcExpr && calc is None ==> apply_property(s, "height"@, e, calc) == (StyleView { height_expr: Some(expr_view(e)), ..s }),
        !(e is Number || e is Dimension || e is CalcExpr) ==> apply_property(s, "height"@, e, calc) == s,
{
    lemma_name_texts();
}

/// `font_size`: a number sets it, a dimension sets its relative form; anything else changes nothing.
pub proof fn lemma_property_font_size(s: StyleView, n: u32, d: DimensionValue, b: bool, t: String, e: Expr, calc: Option<DimensionValue>)
    ensures
        apply_property(s, "font_size"@, Expr::Number(n), calc) == (StyleView { font_size: Some(n), ..s }),
        apply_property(s, "font_size"@, Expr::Dimension(d), calc) == (StyleView { relative_font_size: Some(d), ..s }),
        !(e is Number || e is Dimension) ==> apply_property(s, "font_size"@, e, calc) == s,
{
    lemma_name_texts();
}

/// `spacing`: a number sets it, a dimension sets its relative form; anything else changes nothing.
pub proof fn lemma_property_spacing(s: StyleView, n: u32, d: DimensionValue, b: bool, t: String, e: Expr, calc: Option<DimensionValue>)
    ensures
        apply_property(s, "spacing"@, Expr::Number(n), calc) == (StyleView { spacing: Some(n), ..s }),
        apply_property(s, "spacing"@, Expr::Dimension(d), calc) == (StyleView { relative_spacing: Some(d), ..s }),
        !(e is Number || e is Dimension) ==> apply_property(s, "spacing"@, e, calc) == s,
{
    lemma_name_texts();
}

/// `gap`: a number sets the spacing and clears the gap; a dimension sets both the gap and the relative spacing; anything else changes nothing.
pub proof fn lemma_property_gap(s: StyleView, n: u32, d: DimensionValue, b: bool, t: String, e: Expr, calc: Option<DimensionValue>)
    ensures
        apply_property(s, "gap"@, Expr::Number(n), calc) == (StyleView { spacing: Some(n), gap: None, ..s }),
        apply_property(s, "gap"@, Expr::Dimension(d), calc) == (StyleView { gap: Some(d), relative_spacing: Some(d), ..s }),
        !(e is Number || e is Dimension) ==> apply_property(s, "gap"@, e, calc) == s,
{
    lemma_name_texts();
}

/// `font`: a string sets it; anything else changes nothing.
pub proof fn lemma_property_font(s: StyleView, n: u32, d: DimensionValue, b: bool, t: String, e: Expr, calc: Option<DimensionValue>)
    ensures
        apply_property(s, "font"@, Expr::String(t), calc) == (StyleView { font: Some(t), ..s }),
        !(e is String) ==> apply_property(s, "font"@, e, calc) == s,
{
    lemma_name_texts();
}

/// `font_weight`: a string sets it; anything else changes nothing.
pub proof fn lemma_property_font_weight(s: StyleView, n: u32, d: DimensionValue, b: bool, t: String, e: Expr, calc: Option<DimensionValue>)
    ensures
        apply_property(s, "font_weight"@, Expr::String(t), calc) == (StyleView { font_weight: Some(t), ..s }),
        !(e is String) ==> apply_property(s, "font_weight"@, e, calc) == s,
{
    lemma_name_texts();
}

/// `font_family`: a string sets it; anything else changes nothing.
pub proof fn lemma_property_font_family(s: StyleView, n: u32, d: DimensionValue, b: bool, t: String, e: Expr, calc: Option<DimensionValue>)
    ensures
        apply_property(s, "font_family"@, Expr::String(t), calc) == (StyleView { font_family: Some(t), ..s }),
        !(e is String) ==> apply_property(s, "font_family"@, e, calc) == s,
{
    lemma_name_texts();
}

/// `card`: a boolean sets it; anything else changes nothing.
pub proof fn lemma_property_card(s: StyleView, n: u32, d: DimensionValue, b: bool, t: String, e: Expr, calc: Option<DimensionValue>)
    ensures
        apply_property(s, "card"@, Expr::Bool(b), calc) == (StyleView { card: Some(b), ..s }),
        !(e is Bool) ==> apply_property(s, "card"@, e, calc) == s,
{
    lemma_name_texts();
}

/// `line_height`: a number sets it; anything else changes nothing.
pub proof fn lemma_property_line_height(s: StyleView, n: u32, d: DimensionValue, b: bool, t: String, e: Expr, calc: Option<DimensionValue>)
    ensures
        apply_property(s, "line_height"@, Expr::Number(n), calc) == (StyleView { line_height: Some(n), ..s }),
        !(e is Number) ==> apply_property(s, "line_height"@, e, calc) == s,
{
    lemma_name_texts();
}

/// `rounded`: a number or a dimension sets that radius, `true` the default rounding, `false` none; anything else changes nothing.
pub proof fn lemma_property_rounded(s: StyleView, n: u32, d: DimensionValue, b: bool, t: String, e: Expr, calc: Option<DimensionValue>)
    ensures
        apply_property(s, "rounded"@, Expr::Number(n), calc) == (StyleView { rounded: Some(Rounded::Px(n)), ..s }),
        apply_property(s, "rounded"@, Expr::Dimension(d), calc) == (StyleView { rounded: Some(Rounded::Px(d.value)), ..s }),
        apply_property(s, "rounded"@, Expr::Bool(true), calc) == (StyleView { rounded: Some(Rounded::On), ..s }),
        apply_property(s, "rounded"@, Expr::Bool(false), calc) == (StyleView { rounded: None, ..s }),
        !(e is Number || e is Dimension || e is Bool) ==> apply_property(s, "rounded"@, e, calc) == s,
{
    lemma_name_texts();
}

/// `max_width`: a dimension sets it; anything else changes nothing.
pub proof fn lemma_property_max_width(s: StyleView, n: u32, d: DimensionValue, b: bool, t: String, e: Expr, calc: Option<DimensionValue>)
    ensures
        apply_property(s, "max_width"@, Expr::Dimension(d), calc) == (StyleView { max_width: Some(d), ..s }),
        !(e is Dimension) ==> apply_property(s, "max_width"@, e, calc) == s,
{
    lemma_name_texts();
}

/// `min_width`: a dimension sets it; anything else changes nothing.
pub proof fn lemma_property_min_width(s: StyleView, n: u32, d: DimensionValue, b: bool, t: String, e: Expr, calc: Option<DimensionValue>)
    ensures
        apply_property(s, "min_width"@, Expr::Dimension(d), calc) == (StyleView { min_width: Some(d), ..s }),
        !(e is Dimension) ==> apply_property(s, "min_width"@, e, calc) == s,
{
    lemma_name_texts();
}

/// `min_height`: a dimension sets it; anything else changes nothing.
pub proof fn lemma_property_min_height(s: StyleView, n: u32, d: DimensionValue, b: bool, t: String, e: Expr, calc: Option<DimensionValue>)
    ensures
        apply_property(s, "min_height"@, Expr::Dimension(d), calc) == (StyleView { min_height: Some(d), ..s }),
        !(e is Dimension) ==> apply_property(s, "min_height"@, e, calc) == s,
{
    lemma_name_texts();
}

/// `margin_top`: a dimension sets it; anything else changes nothing.
pub proof fn lemma_property_margin_top(s: StyleView, n: u32, d: DimensionValue, b: bool, t: String, e: Expr, calc: Option<DimensionValue>)
    ensures
        apply_property(s, "margin_top"@, Expr::Dimension(d), calc) == (StyleView { margin_top: Some(d), ..s }),
        !(e is Dimension) ==> apply_property(s, "margin_top"@, e, calc) == s,
{
    lemma_name_texts();
}

/// `margin_bottom`: a dimension sets it; anything else changes nothing.
pub proof fn lemma_property_margin_bottom(s: StyleView, n: u32, d: DimensionValue, b: bool, t: String, e: Expr, calc: Option<DimensionValue>)
    ensures
        apply_property(s, "margin_bottom"@, Expr::Dimension(d), calc) == (StyleView { margin_bottom: Some(d), ..s }),
        !(e is Dimension) ==> apply_property(s, "margin_bottom"@, e, calc) == s,
{
    lemma_name_texts();
}

/// `margin_left`: a dimension sets it; anything else changes nothing.
pub proof fn lemma_property_margin_left(s: StyleView, n: u32, d: DimensionValue, b: bool, t: String, e: Expr, calc: Option<DimensionValue>)
    ensures
        apply_property(s, "margin_left"@, Expr::Dimension(d), calc) == (StyleView { margin_left: Some(d), ..s }),
        !(e is Dimension) ==> apply_property(s, "margin_left"@, e, calc) == s,
{
    lemma_name_texts();
}

/// `margin_right`: a dimension sets it; anything else changes nothing.
pub proof fn lemma_property_margin_right(s: StyleView, n: u32, d: DimensionValue, b: bool, t: String, e: Expr, calc: Option<DimensionValue>)
    ensures
        apply_property(s, "margin_right"@, Expr::Dimension(d), calc) == (StyleView { margin_right: Some(d), ..s }),
        !(e is Dimension) ==> apply_property(s, "margin_right"@, e, calc) == s,
{
    lemma_name_texts();
}

/// `wrap`: a string whose lowercase form is `none` turns wrapping off, any other string turns it on; anything else changes nothing.
pub proof fn lemma_property_wrap(s: StyleView, n: u32, d: DimensionValue, b: bool, t: String, e: Expr, calc: Option<DimensionValue>)
    ensures
        spec_to_lowercase(t@) == "none"@ ==> apply_property(s, "wrap"@, Expr::String(t), calc) == (StyleView { wrap: Some(WrapMode::NoWrap), ..s }),
        spec_to_lowercase(t@) != "none"@ ==> apply_property(s, "wrap"@, Expr::String(t), calc) == (StyleView { wrap: Some(WrapMode::Auto), ..s }),
        !(e is String) ==> apply_property(s, "wrap"@, e, calc) == s,
{
    lemma_name_texts();
}

/// `align`: a string whose lowercase form is `left`, `center`, `right`, `top` or `bottom` sets that alignment, any other string clears it; anything else changes nothing.
pub proof fn lemma_property_align(s: StyleView, n: u32, d: DimensionValue, b: bool, t: String, e: Expr, calc: Option<DimensionValue>)
    ensures
        spec_to_lowercase(t@) == "left"@ ==> apply_property(s, "align"@, Expr::String(t), calc) == (StyleView { align: Some(Align::Left), ..s }),
        spec_to_lowercase(t@) == "center"@ ==> apply_property(s, "align"@, Expr::String(t), calc) == (StyleView { align: Some(Align::Center), ..s }),
        spec_to_lowercase(t@) == "right"@ ==> apply_property(s, "align"@, Expr::String(t), calc) == (StyleView { align: Some(Align::Right), ..s }),
        spec_to_lowercase(t@) == "top"@ ==> apply_property(s, "align"@, Expr::String(t), calc) == (StyleView { align: Some(Align::Top), ..s }),
        spec_to_lowercase(t@) == "bottom"@ ==> apply_property(s, "align"@, Expr::String(t), calc) == (StyleView { align: Some(Align::Bottom), ..s }),
        !(spec_to_lowercase(t@) == "left"@ || spec_to_lowercase(t@) == "center"@ || spec_to_lowercase(t@) == "right"@ || spec_to_lowercase(t@) == "top"@ || spec_to_lowercase(t@) == "bottom"@) ==> apply_property(s, "align"@, Expr::String(t), calc) == (StyleView { align: None, ..s }),
        !(e is String) ==> apply_property(s, "align"@, e, calc) == s,
{
    lemma_name_texts();
}

/// A key that names no property changes nothing.
pub proof fn lemma_property_unknown(s: StyleView, k: Seq<char>, e: Expr, calc: Option<DimensionValue>)
    requires
        k != "color"@,
        k != "background"@,
        k != "border_color"@,
        k != "padding"@,
        k != "margin"@,
        k != "size"@,
        k != "width"@,
        k != "height"@,
        k != "font_size"@,
        k != "font"@,
        k != "spacing"@,
        k != "gap"@,
        k != "card"@,
        k != "rounded"@,
        k != "max_width"@,
        k != "min_width"@,
        k != "min_height"@,
        k != "margin_top"@,
        k != "margin_bottom"@,
        k != "margin_left"@,
        k != "margin_right"@,
        k != "line_height"@,
        k != "font_weight"@,
        k != "font_family"@,
        k != "wrap"@,
        k != "align"@,
    ensures
        apply_property(s, k, e, calc) == s,
{
}

} // verus!
