use vstd::prelude::*;

use crate::parser::ast::{expr_view, DimensionValue, Expr, ExprView};
use crate::text::clone_opt_string;

verus! {

broadcast use vstd::std_specs::vec::group_vec_axioms;

/// How text wraps.
#[derive(Debug, Clone, Copy, PartialEq, Eq)]
pub enum WrapMode {
    /// Wrap at the available width (the default).
    Auto,
    /// Never wrap (written `none`).
    NoWrap,
}

/// What happens to content that overflows its container.
#[derive(Debug, Clone, Copy, PartialEq, Eq)]
pub enum OverflowMode {
    Visible,
    Hidden,
    Scroll,
    Auto,
}

/// A colour: four channel intensities (IEEE-754 single-precision bit
/// patterns, red, green, blue, alpha) or a colour string such as `#ff0000`.
#[derive(Debug, PartialEq, Eq)]
pub enum ColorValue {
    Rgba([u32; 4]),
    Hex(String),
}

#[derive(Debug, Clone, Copy, PartialEq, Eq)]
pub enum Align {
    Left,
    Center,
    Right,
    Top,
    Bottom,
}

/// Corner rounding: the theme's default radius, or an explicit radius (bit
/// pattern).
#[derive(Debug, Clone, Copy, PartialEq, Eq)]
pub enum Rounded {
    On,
    Px(u32),
}

/// A drop shadow: the theme's default, or blur radius, offset and colour.
#[derive(Debug, PartialEq, Eq)]
pub enum Shadow {
    On,
    Spec { blur: u32, offset: [u32; 2], color: Option<ColorValue> },
}

/// Four absolute edge widths (bit patterns).
#[derive(Debug, Clone, Copy, PartialEq, Eq)]
pub struct Edges {
    pub top: u32,
    pub right: u32,
    pub bottom: u32,
    pub left: u32,
}

/// Four edge widths in any unit; a missing edge counts as zero.
#[derive(Debug, Clone, Copy, PartialEq, Eq)]
pub struct RelativeEdges {
    pub top: Option<DimensionValue>,
    pub right: Option<DimensionValue>,
    pub bottom: Option<DimensionValue>,
    pub left: Option<DimensionValue>,
}

impl Edges {
    /// The same width on all four edges.
    pub fn all(value: u32) -> (e: Edges)
        ensures
            e == (Edges { top: value, right: value, bottom: value, left: value }),
    {
        Edges { top: value, right: value, bottom: value, left: value }
    }

    /// One width for top and bottom, another for right and left.
    pub fn vh(vertical: u32, horizontal: u32) -> (e: Edges)
        ensures
            e == (Edges { top: vertical, right: horizontal, bottom: vertical, left: horizontal }),
    {
        Edges { top: vertical, right: horizontal, bottom: vertical, left: horizontal }
    }

    /// All four edges zero.
    pub fn zero() -> (e: Edges)
        ensures
            e == (Edges { top: 0, right: 0, bottom: 0, left: 0 }),
    {
        Edges { top: 0, right: 0, bottom: 0, left: 0 }
    }
}

impl RelativeEdges {
    /// The same dimension on all four edges.
    pub fn all(value: DimensionValue) -> (e: RelativeEdges)
        ensures
            e == (RelativeEdges {
                top: Some(value),
                right: Some(value),
                bottom: Some(value),
                left: Some(value),
            }),
    {
        RelativeEdges { top: Some(value), right: Some(value), bottom: Some(value), left: Some(value) }
    }

    /// One dimension for top and bottom, another for right and left.
    pub fn vh(vertical: DimensionValue, horizontal: DimensionValue) -> (e: RelativeEdges)
        ensures
            e == (RelativeEdges {
                top: Some(vertical),
                right: Some(horizontal),
                bottom: Some(vertical),
                left: Some(horizontal),
            }),
    {
        RelativeEdges {
            top: Some(vertical),
            right: Some(horizontal),
            bottom: Some(vertical),
            left: Some(horizontal),
        }
    }

    /// No edge set.
    pub fn none() -> (e: RelativeEdges)
        ensures
            e == (RelativeEdges { top: None, right: None, bottom: None, left: None }),
    {
        RelativeEdges { top: None, right: None, bottom: None, left: None }
    }
}

impl ColorValue {
    pub fn deep_clone(&self) -> (r: ColorValue)
        ensures
            r == *self,
    {
        match self {
            ColorValue::Rgba(c) => ColorValue::Rgba(*c),
            ColorValue::Hex(s) => ColorValue::Hex(s.clone()),
        }
    }
}

pub fn clone_opt_color(c: &Option<ColorValue>) -> (r: Option<ColorValue>)
    ensures
        r == *c,
{
    match c {
        Some(v) => Some(v.deep_clone()),
        None => None,
    }
}

impl Shadow {
    pub fn deep_clone(&self) -> (r: Shadow)
        ensures
            r == *self,
    {
        match self {
            Shadow::On => Shadow::On,
            Shadow::Spec { blur, offset, color } => Shadow::Spec {
                blur: *blur,
                offset: *offset,
                color: clone_opt_color(color),
            },
        }
    }
}

pub fn clone_opt_shadow(s: &Option<Shadow>) -> (r: Option<Shadow>)
    ensures
        r == *s,
{
    match s {
        Some(v) => Some(v.deep_clone()),
        None => None,
    }
}

pub open spec fn opt_expr_view(e: Option<Expr>) -> Option<ExprView> {
    match e {
        Some(x) => Some(expr_view(x)),
        None => None,
    }
}

pub fn clone_opt_expr(e: &Option<Expr>) -> (r: Option<Expr>)
    ensures
        opt_expr_view(r) == opt_expr_view(*e),
{
    match e {
        Some(x) => Some(x.deep_clone()),
        None => None,
    }
}

/// A conditional style: `style` applies while `condition` holds (for
/// instance `window.width <= 1000`).
pub struct ResponsiveRule {
    pub condition: Expr,
    pub style: Box<Style>,
}

/// The visual properties of a node. Every property is optional; an absent
/// one is inherited or defaulted by layout.
pub struct Style {
    pub color: Option<ColorValue>,
    pub background: Option<ColorValue>,
    pub border_color: Option<ColorValue>,
    pub font_size: Option<u32>,
    pub relative_font_size: Option<DimensionValue>,
    pub font: Option<String>,
    pub padding: Option<Edges>,
    pub relative_padding: Option<RelativeEdges>,
    pub margin: Option<Edges>,
    pub relative_margin: Option<RelativeEdges>,
    /// [width, height].
    pub size: Option<[u32; 2]>,
    pub relative_size: Option<[DimensionValue; 2]>,
    pub width: Option<u32>,
    pub height: Option<u32>,
    pub relative_width: Option<DimensionValue>,
    pub relative_height: Option<DimensionValue>,
    /// An arithmetic width that could not be resolved statically.
    pub width_expr: Option<Expr>,
    /// An arithmetic height that could not be resolved statically.
    pub height_expr: Option<Expr>,
    pub align: Option<Align>,
    pub rounded: Option<Rounded>,
    pub shadow: Option<Shadow>,
    pub card: Option<bool>,
    pub spacing: Option<u32>,
    pub relative_spacing: Option<DimensionValue>,
    /// The style applied while the pointer is over the node.
    pub hover: Option<Box<Style>>,
    pub justify_content: Option<String>,
    pub align_items: Option<String>,
    pub position: Option<String>,
    pub top: Option<DimensionValue>,
    pub left: Option<DimensionValue>,
    pub right: Option<DimensionValue>,
    pub bottom: Option<DimensionValue>,
    /// Stacking order.
    pub z_index: Option<i32>,
    pub flex_wrap: Option<String>,
    pub gap: Option<DimensionValue>,
    pub max_width: Option<DimensionValue>,
    pub min_width: Option<DimensionValue>,
    pub max_height: Option<DimensionValue>,
    pub min_height: Option<DimensionValue>,
    pub margin_top: Option<DimensionValue>,
    pub margin_bottom: Option<DimensionValue>,
    pub margin_left: Option<DimensionValue>,
    pub margin_right: Option<DimensionValue>,
    pub line_height: Option<u32>,
    pub text_align: Option<String>,
    pub font_weight: Option<String>,
    pub font_family: Option<String>,
    pub backdrop_filter: Option<String>,
    pub border: Option<String>,
    pub wrap: Option<WrapMode>,
    pub overflow: Option<OverflowMode>,
    /// Conditional styles, in the order they were written.
    pub responsive_rules: Vec<ResponsiveRule>,
}

/// The mathematical value of a `Style`: the same properties, with nested
/// expressions, hover styles and rules taken by value.
#[verifier::ext_equal]
pub struct StyleView {
    pub color: Option<ColorValue>,
    pub background: Option<ColorValue>,
    pub border_color: Option<ColorValue>,
    pub font_size: Option<u32>,
    pub relative_font_size: Option<DimensionValue>,
    pub font: Option<String>,
    pub padding: Option<Edges>,
    pub relative_padding: Option<RelativeEdges>,
    pub margin: Option<Edges>,
    pub relative_margin: Option<RelativeEdges>,
    pub size: Option<[u32; 2]>,
    pub relative_size: Option<[DimensionValue; 2]>,
    pub width: Option<u32>,
    pub height: Option<u32>,
    pub relative_width: Option<DimensionValue>,
    pub relative_height: Option<DimensionValue>,
    pub width_expr: Option<ExprView>,
    pub height_expr: Option<ExprView>,
    pub align: Option<Align>,
    pub rounded: Option<Rounded>,
    pub shadow: Option<Shadow>,
    pub card: Option<bool>,
    pub spacing: Option<u32>,
    pub relative_spacing: Option<DimensionValue>,
    pub hover: Option<Box<StyleView>>,
    pub justify_content: Option<String>,
    pub align_items: Option<String>,
    pub position: Option<String>,
    pub top: Option<DimensionValue>,
    pub left: Option<DimensionValue>,
    pub right: Option<DimensionValue>,
    pub bottom: Option<DimensionValue>,
    pub z_index: Option<i32>,
    pub flex_wrap: Option<String>,
    pub gap: Option<DimensionValue>,
    pub max_width: Option<DimensionValue>,
    pub min_width: Option<DimensionValue>,
    pub max_height: Option<DimensionValue>,
    pub min_height: Option<DimensionValue>,
    pub margin_top: Option<DimensionValue>,
    pub margin_bottom: Option<DimensionValue>,
    pub margin_left: Option<DimensionValue>,
    pub margin_right: Option<DimensionValue>,
    pub line_height: Option<u32>,
    pub text_align: Option<String>,
    pub font_weight: Option<String>,
    pub font_family: Option<String>,
    pub backdrop_filter: Option<String>,
    pub border: Option<String>,
    pub wrap: Option<WrapMode>,
    pub overflow: Option<OverflowMode>,
    pub responsive_rules: Seq<RuleView>,
}

/// The value of a `ResponsiveRule`.
pub struct RuleView {
    pub condition: ExprView,
    pub style: Box<StyleView>,
}

pub open spec fn opt_hover_view(h: Option<Box<Style>>) -> Option<Box<StyleView>>
    decreases h,
{
    match h {
        Some(b) => Some(Box::new(style_view(*b))),
        None => None,
    }
}

pub open spec fn style_view(s: Style) -> StyleView
    decreases s,
{
    StyleView {
        color: s.color,
        background: s.background,
        border_color: s.border_color,
        font_size: s.font_size,
        relative_font_size: s.relative_font_size,
        font: s.font,
        padding: s.padding,
        relative_padding: s.relative_padding,
        margin: s.margin,
        relative_margin: s.relative_margin,
        size: s.size,
        relative_size: s.relative_size,
        width: s.width,
        height: s.height,
        relative_width: s.relative_width,
        relative_height: s.relative_height,
        width_expr: opt_expr_view(s.width_expr),
        height_expr: opt_expr_view(s.height_expr),
        align: s.align,
        rounded: s.rounded,
        shadow: s.shadow,
        card: s.card,
        spacing: s.spacing,
        relative_spacing: s.relative_spacing,
        hover: match s.hover { Some(b) => Some(Box::new(style_view(*b))), None => None },
        justify_content: s.justify_content,
        align_items: s.align_items,
        position: s.position,
        top: s.top,
        left: s.left,
        right: s.right,
        bottom: s.bottom,
        z_index: s.z_index,
        flex_wrap: s.flex_wrap,
        gap: s.gap,
        max_width: s.max_width,
        min_width: s.min_width,
        max_height: s.max_height,
        min_height: s.min_height,
        margin_top: s.margin_top,
        margin_bottom: s.margin_bottom,
        margin_left: s.margin_left,
        margin_right: s.margin_right,
        line_height: s.line_height,
        text_align: s.text_align,
        font_weight: s.font_weight,
        font_family: s.font_family,
        backdrop_filter: s.backdrop_filter,
        border: s.border,
        wrap: s.wrap,
        overflow: s.overflow,
        responsive_rules: rules_view(s.responsive_rules@),
    }
}

pub open spec fn rules_view(r: Seq<ResponsiveRule>) -> Seq<RuleView>
    decreases r,
{
    if r.len() == 0 {
        Seq::empty()
    } else {
        rules_view(r.drop_last()).push(
            RuleView { condition: expr_view(r.last().condition), style: Box::new(style_view(*r.last().style)) },
        )
    }
}

/// `over` where it is set, otherwise `base`.
pub open spec fn pick<T>(base: Option<T>, over: Option<T>) -> Option<T> {
    if over is Some {
        over
    } else {
        base
    }
}

/// The style that results from laying `b` over `a`: every property that `b`
/// sets wins, every other one comes from `a`; `b`'s responsive rules replace
/// `a`'s when `b` has any.
pub open spec fn merge_view(a: StyleView, b: StyleView) -> StyleView {
    StyleView {
        color: pick(a.color, b.color),
        background: pick(a.background, b.background),
        border_color: pick(a.border_color, b.border_color),
        font_size: pick(a.font_size, b.font_size),
        relative_font_size: pick(a.relative_font_size, b.relative_font_size),
        font: pick(a.font, b.font),
        padding: pick(a.padding, b.padding),
        relative_padding: pick(a.relative_padding, b.relative_padding),
        margin: pick(a.margin, b.margin),
        relative_margin: pick(a.relative_margin, b.relative_margin),
        size: pick(a.size, b.size),
        relative_size: pick(a.relative_size, b.relative_size),
        width: pick(a.width, b.width),
        height: pick(a.height, b.height),
        relative_width: pick(a.relative_width, b.relative_width),
        relative_height: pick(a.relative_height, b.relative_height),
        width_expr: pick(a.width_expr, b.width_expr),
        height_expr: pick(a.height_expr, b.height_expr),
        align: pick(a.align, b.align),
        rounded: pick(a.rounded, b.rounded),
        shadow: pick(a.shadow, b.shadow),
        card: pick(a.card, b.card),
        spacing: pick(a.spacing, b.spacing),
        relative_spacing: pick(a.relative_spacing, b.relative_spacing),
        hover: pick(a.hover, b.hover),
        justify_content: pick(a.justify_content, b.justify_content),
        align_items: pick(a.align_items, b.align_items),
        position: pick(a.position, b.position),
        top: pick(a.top, b.top),
        left: pick(a.left, b.left),
        right: pick(a.right, b.right),
        bottom: pick(a.bottom, b.bottom),
        z_index: pick(a.z_index, b.z_index),
        flex_wrap: pick(a.flex_wrap, b.flex_wrap),
        gap: pick(a.gap, b.gap),
        max_width: pick(a.max_width, b.max_width),
        min_width: pick(a.min_width, b.min_width),
        max_height: pick(a.max_height, b.max_height),
        min_height: pick(a.min_height, b.min_height),
        margin_top: pick(a.margin_top, b.margin_top),
        margin_bottom: pick(a.margin_bottom, b.margin_bottom),
        margin_left: pick(a.margin_left, b.margin_left),
        margin_right: pick(a.margin_right, b.margin_right),
        line_height: pick(a.line_height, b.line_height),
        text_align: pick(a.text_align, b.text_align),
        font_weight: pick(a.font_weight, b.font_weight),
        font_family: pick(a.font_family, b.font_family),
        backdrop_filter: pick(a.backdrop_filter, b.backdrop_filter),
        border: pick(a.border, b.border),
        wrap: pick(a.wrap, b.wrap),
        overflow: pick(a.overflow, b.overflow),
        responsive_rules: if b.responsive_rules.len() > 0 {
            b.responsive_rules
        } else {
            a.responsive_rules
        },
    }
}

/// The style with no property set and no rule.
pub open spec fn empty_style_view() -> StyleView {
    StyleView {
        color: None,
        background: None,
        border_color: None,
        font_size: None,
        relative_font_size: None,
        font: None,
        padding: None,
        relative_padding: None,
        margin: None,
        relative_margin: None,
        size: None,
        relative_size: None,
        width: None,
        height: None,
        relative_width: None,
        relative_height: None,
        width_expr: None,
        height_expr: None,
        align: None,
        rounded: None,
        shadow: None,
        card: None,
        spacing: None,
        relative_spacing: None,
        hover: None,
        justify_content: None,
        align_items: None,
        position: None,
        top: None,
        left: None,
        right: None,
        bottom: None,
        z_index: None,
        flex_wrap: None,
        gap: None,
        max_width: None,
        min_width: None,
        max_height: None,
        min_height: None,
        margin_top: None,
        margin_bottom: None,
        margin_left: None,
        margin_right: None,
        line_height: None,
        text_align: None,
        font_weight: None,
        font_family: None,
        backdrop_filter: None,
        border: None,
        wrap: None,
        overflow: None,
        responsive_rules: Seq::empty(),
    }
}

impl Default for Style {
    fn default() -> (s: Style)
        ensures
            style_view(s) == empty_style_view(),
    {
        let s = Style {
            color: None,
            background: None,
            border_color: None,
            font_size: None,
            relative_font_size: None,
            font: None,
            padding: None,
            relative_padding: None,
            margin: None,
            relative_margin: None,
            size: None,
            relative_size: None,
            width: None,
            height: None,
            relative_width: None,
            relative_height: None,
            width_expr: None,
            height_expr: None,
            align: None,
            rounded: None,
            shadow: None,
            card: None,
            spacing: None,
            relative_spacing: None,
            hover: None,
            justify_content: None,
            align_items: None,
            position: None,
            top: None,
            left: None,
            right: None,
            bottom: None,
            z_index: None,
            flex_wrap: None,
            gap: None,
            max_width: None,
            min_width: None,
            max_height: None,
            min_height: None,
            margin_top: None,
            margin_bottom: None,
            margin_left: None,
            margin_right: None,
            line_height: None,
            text_align: None,
            font_weight: None,
            font_family: None,
            backdrop_filter: None,
            border: None,
            wrap: None,
            overflow: None,
            responsive_rules: Vec::new(),
        };
        proof {
            assert(s.responsive_rules@ =~= Seq::<ResponsiveRule>::empty());
            assert(rules_view(s.responsive_rules@) =~= Seq::<RuleView>::empty());
            assert(style_view(s) =~= empty_style_view());
        }
        s
    }
}

/// A list of rules and its value have the same length.
pub proof fn lemma_rules_view_len(r: Seq<ResponsiveRule>)
    ensures
        rules_view(r).len() == r.len(),
    decreases r.len(),
{
    if r.len() > 0 {
        lemma_rules_view_len(r.drop_last());
    }
}

impl ResponsiveRule {
    pub fn deep_clone(&self) -> (r: ResponsiveRule)
        ensures
            expr_view(r.condition) == expr_view(self.condition),
            style_view(*r.style) == style_view(*self.style),
        decreases self,
    {
        ResponsiveRule { condition: self.condition.deep_clone(), style: Box::new(self.style.deep_clone()) }
    }
}

/// `over` where it is set, otherwise `base`.
pub fn pick_copy<T: Copy>(base: &Option<T>, over: &Option<T>) -> (r: Option<T>)
    ensures
        r == pick(*base, *over),
{
    match over {
        Some(v) => Some(*v),
        None => *base,
    }
}

pub fn pick_string(base: &Option<String>, over: &Option<String>) -> (r: Option<String>)
    ensures
        r == pick(*base, *over),
{
    if over.is_some() {
        clone_opt_string(over)
    } else {
        clone_opt_string(base)
    }
}

pub fn pick_color(base: &Option<ColorValue>, over: &Option<ColorValue>) -> (r: Option<ColorValue>)
    ensures
        r == pick(*base, *over),
{
    if over.is_some() {
        clone_opt_color(over)
    } else {
        clone_opt_color(base)
    }
}

pub fn pick_shadow(base: &Option<Shadow>, over: &Option<Shadow>) -> (r: Option<Shadow>)
    ensures
        r == pick(*base, *over),
{
    if over.is_some() {
        clone_opt_shadow(over)
    } else {
        clone_opt_shadow(base)
    }
}

pub fn pick_expr(base: &Option<Expr>, over: &Option<Expr>) -> (r: Option<Expr>)
    ensures
        opt_expr_view(r) == pick(opt_expr_view(*base), opt_expr_view(*over)),
{
    if over.is_some() {
        clone_opt_expr(over)
    } else {
        clone_opt_expr(base)
    }
}

/// A copy of a list of rules with the same value.
pub fn clone_rules(r: &Vec<ResponsiveRule>) -> (out: Vec<ResponsiveRule>)
    ensures
        rules_view(out@) == rules_view(r@),
    decreases r,
{
    let mut out: Vec<ResponsiveRule> = Vec::new();
    let mut i: usize = 0;
    while i < r.len()
        invariant
            i <= r.len(),
            rules_view(out@) == rules_view(r@.take(i as int)),
        decreases r.len() - i,
    {
        proof {
            assert(decreases_to!(*r => r@[i as int]));
        }
        let c = r[i].deep_clone();
        proof {
            assert(out@.push(c).drop_last() == out@);
            assert(r@.take(i + 1).drop_last() == r@.take(i as int));
        }
        out.push(c);
        i = i + 1;
    }
    proof {
        assert(r@.take(r@.len() as int) == r@);
    }
    out
}

impl Style {
    /// A copy with the same value.
    pub fn deep_clone(&self) -> (r: Style)
        ensures
            style_view(r) == style_view(*self),
        decreases self,
    {
        let self_hover = match &self.hover {
            Some(h) => Some(Box::new(h.deep_clone())),
            None => None,
        };
        let rules = clone_rules(&self.responsive_rules);
        Style {
            color: clone_opt_color(&self.color),
            background: clone_opt_color(&self.background),
            border_color: clone_opt_color(&self.border_color),
            font_size: self.font_size,
            relative_font_size: self.relative_font_size,
            font: clone_opt_string(&self.font),
            padding: self.padding,
            relative_padding: self.relative_padding,
            margin: self.margin,
            relative_margin: self.relative_margin,
            size: self.size,
            relative_size: self.relative_size,
            width: self.width,
            height: self.height,
            relative_width: self.relative_width,
            relative_height: self.relative_height,
            width_expr: clone_opt_expr(&self.width_expr),
            height_expr: clone_opt_expr(&self.height_expr),
            align: self.align,
            rounded: self.rounded,
            shadow: clone_opt_shadow(&self.shadow),
            card: self.card,
            spacing: self.spacing,
            relative_spacing: self.relative_spacing,
            hover: self_hover,
            justify_content: clone_opt_string(&self.justify_content),
            align_items: clone_opt_string(&self.align_items),
            position: clone_opt_string(&self.position),
            top: self.top,
            left: self.left,
            right: self.right,
            bottom: self.bottom,
            z_index: self.z_index,
            flex_wrap: clone_opt_string(&self.flex_wrap),
            gap: self.gap,
            max_width: self.max_width,
            min_width: self.min_width,
            max_height: self.max_height,
            min_height: self.min_height,
            margin_top: self.margin_top,
            margin_bottom: self.margin_bottom,
            margin_left: self.margin_left,
            margin_right: self.margin_right,
            line_height: self.line_height,
            text_align: clone_opt_string(&self.text_align),
            font_weight: clone_opt_string(&self.font_weight),
            font_family: clone_opt_string(&self.font_family),
            backdrop_filter: clone_opt_string(&self.backdrop_filter),
            border: clone_opt_string(&self.border),
            wrap: self.wrap,
            overflow: self.overflow,
            responsive_rules: rules,
        }
    }

    /// This style with every property that `other` sets replaced by
    /// `other`'s; `other`'s responsive rules replace these when it has any.
    #[verifier::rlimit(40)]
    pub fn merged(&self, other: &Style) -> (result: Style)
        ensures
            style_view(result) == merge_view(style_view(*self), style_view(*other)),
    {
        let hover = match &other.hover {
            Some(h) => Some(Box::new(h.deep_clone())),
            None => match &self.hover {
                Some(h) => Some(Box::new(h.deep_clone())),
                None => None,
            },
        };
        let rules = if other.responsive_rules.len() > 0 {
            clone_rules(&other.responsive_rules)
        } else {
            clone_rules(&self.responsive_rules)
        };
        let result = Style {
            color: pick_color(&self.color, &other.color),
            background: pick_color(&self.background, &other.background),
            border_color: pick_color(&self.border_color, &other.border_color),
            font_size: pick_copy(&self.font_size, &other.font_size),
            relative_font_size: pick_copy(&self.relative_font_size, &other.relative_font_size),
            font: pick_string(&self.font, &other.font),
            padding: pick_copy(&self.padding, &other.padding),
            relative_padding: pick_copy(&self.relative_padding, &other.relative_padding),
            margin: pick_copy(&self.margin, &other.margin),
            relative_margin: pick_copy(&self.relative_margin, &other.relative_margin),
            size: pick_copy(&self.size, &other.size),
            relative_size: pick_copy(&self.relative_size, &other.relative_size),
            width: pick_copy(&self.width, &other.width),
            height: pick_copy(&self.height, &other.height),
            relative_width: pick_copy(&self.relative_width, &other.relative_width),
            relative_height: pick_copy(&self.relative_height, &other.relative_height),
            width_expr: pick_expr(&self.width_expr, &other.width_expr),
            height_expr: pick_expr(&self.height_expr, &other.height_expr),
            align: pick_copy(&self.align, &other.align),
            rounded: pick_copy(&self.rounded, &other.rounded),
            shadow: pick_shadow(&self.shadow, &other.shadow),
            card: pick_copy(&self.card, &other.card),
            spacing: pick_copy(&self.spacing, &other.spacing),
            relative_spacing: pick_copy(&self.relative_spacing, &other.relative_spacing),
            hover: hover,
            justify_content: pick_string(&self.justify_content, &other.justify_content),
            align_items: pick_string(&self.align_items, &other.align_items),
            position: pick_string(&self.position, &other.position),
            top: pick_copy(&self.top, &other.top),
            left: pick_copy(&self.left, &other.left),
            right: pick_copy(&self.right, &other.right),
            bottom: pick_copy(&self.bottom, &other.bottom),
            z_index: pick_copy(&self.z_index, &other.z_index),
            flex_wrap: pick_string(&self.flex_wrap, &other.flex_wrap),
            gap: pick_copy(&self.gap, &other.gap),
            max_width: pick_copy(&self.max_width, &other.max_width),
            min_width: pick_copy(&self.min_width, &other.min_width),
            max_height: pick_copy(&self.max_height, &other.max_height),
            min_height: pick_copy(&self.min_height, &other.min_height),
            margin_top: pick_copy(&self.margin_top, &other.margin_top),
            margin_bottom: pick_copy(&self.margin_bottom, &other.margin_bottom),
            margin_left: pick_copy(&self.margin_left, &other.margin_left),
            margin_right: pick_copy(&self.margin_right, &other.margin_right),
            line_height: pick_copy(&self.line_height, &other.line_height),
            text_align: pick_string(&self.text_align, &other.text_align),
            font_weight: pick_string(&self.font_weight, &other.font_weight),
            font_family: pick_string(&self.font_family, &other.font_family),
            backdrop_filter: pick_string(&self.backdrop_filter, &other.backdrop_filter),
            border: pick_string(&self.border, &other.border),
            wrap: pick_copy(&self.wrap, &other.wrap),
            overflow: pick_copy(&self.overflow, &other.overflow),
            responsive_rules: rules,
        };
        proof {
            lemma_rules_view_len(other.responsive_rules@);
            assert(style_view(result) =~= merge_view(style_view(*self), style_view(*other)));
        }
        result
    }
}

/// Laying the empty style over a style, or a style over the empty style,
/// gives that style back.
pub proof fn lemma_merge_identity(s: StyleView)
    ensures
        merge_view(s, empty_style_view()) == s,
        merge_view(empty_style_view(), s) == s,
{
    if s.responsive_rules.len() == 0 {
        assert(s.responsive_rules =~= Seq::<RuleView>::empty());
    }
    assert(merge_view(s, empty_style_view()) =~= s);
    assert(merge_view(empty_style_view(), s) =~= s);
}

/// Merging is associative: laying `b` then `c` over `a` is laying the merge
/// of `b` and `c` over `a`.
pub proof fn lemma_merge_associative(a: StyleView, b: StyleView, c: StyleView)
    ensures
        merge_view(merge_view(a, b), c) == merge_view(a, merge_view(b, c)),
{
    assert(merge_view(merge_view(a, b), c) =~= merge_view(a, merge_view(b, c)));
}

/// Laying a style over itself changes nothing.
pub proof fn lemma_merge_idempotent(s: StyleView)
    ensures
        merge_view(s, s) == s,
{
    assert(merge_view(s, s) =~= s);
}

/// The merged style keeps everything the overlay sets: laying the result of
/// a merge under the overlay again changes nothing.
pub proof fn lemma_merge_overlay_absorbs(a: StyleView, b: StyleView)
    ensures
        merge_view(merge_view(a, b), b) == merge_view(a, b),
{
    assert(merge_view(merge_view(a, b), b) =~= merge_view(a, b));
}

} // verus!
