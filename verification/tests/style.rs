use nilo::parser::ast::{DimensionValue, Expr, Unit};
use nilo::parser::style::{Align, ColorValue, Edges, ResponsiveRule, Rounded, Style, WrapMode};
use nilo::parser::style_expr::{responsive_key, set_property, style_from_expr, StyleInputs};
use nilo::ui::layout::merge_styles;

const ONE: u32 = 0x3f80_0000;
const TWO: u32 = 0x4000_0000;

fn px(v: u32) -> DimensionValue {
    DimensionValue { value: v, unit: Unit::Px }
}

fn pct(v: u32) -> DimensionValue {
    DimensionValue { value: v, unit: Unit::Percent }
}

fn object(pairs: Vec<(&str, Expr)>) -> Expr {
    Expr::Object(pairs.into_iter().map(|(k, v)| (k.to_string(), v)).collect())
}

fn no_inputs() -> StyleInputs {
    StyleInputs { conditions: vec![], calcs: vec![], nested: vec![] }
}

fn from_object(expr: &Expr) -> Style {
    style_from_expr(expr, &no_inputs())
}

#[test]
fn default_style_sets_nothing() {
    let s = Style::default();
    assert!(s.color.is_none());
    assert!(s.width.is_none());
    assert!(s.hover.is_none());
    assert!(s.responsive_rules.is_empty());
}

#[test]
fn merged_overlay_wins_where_set() {
    let mut a = Style::default();
    a.width = Some(ONE);
    a.font = Some("Serif".to_string());
    let mut b = Style::default();
    b.width = Some(TWO);
    b.card = Some(true);
    let m = a.merged(&b);
    assert_eq!(m.width, Some(TWO));
    assert_eq!(m.font.as_deref(), Some("Serif"));
    assert_eq!(m.card, Some(true));
}

#[test]
fn merged_with_empty_style_is_identity() {
    let mut a = Style::default();
    a.height = Some(ONE);
    a.color = Some(ColorValue::Hex("#123456".to_string()));
    let left = a.merged(&Style::default());
    let right = Style::default().merged(&a);
    for s in [&left, &right] {
        assert_eq!(s.height, Some(ONE));
        assert_eq!(s.color, Some(ColorValue::Hex("#123456".to_string())));
        assert!(s.width.is_none());
    }
}

#[test]
fn merged_is_associative_on_example() {
    let mut a = Style::default();
    a.width = Some(1);
    a.height = Some(1);
    let mut b = Style::default();
    b.height = Some(2);
    b.spacing = Some(2);
    let mut c = Style::default();
    c.spacing = Some(3);
    c.z_index = Some(3);
    let l = a.merged(&b).merged(&c);
    let r = a.merged(&b.merged(&c));
    assert_eq!((l.width, l.height, l.spacing, l.z_index), (r.width, r.height, r.spacing, r.z_index));
    assert_eq!((l.width, l.height, l.spacing, l.z_index), (Some(1), Some(2), Some(3), Some(3)));
}

#[test]
fn merged_responsive_rules_replace_when_present() {
    let mut a = Style::default();
    a.responsive_rules.push(ResponsiveRule { condition: Expr::Bool(true), style: Box::new(Style::default()) });
    let b = Style::default();
    assert_eq!(a.merged(&b).responsive_rules.len(), 1);
    let mut c = Style::default();
    c.responsive_rules.push(ResponsiveRule { condition: Expr::Bool(false), style: Box::new(Style::default()) });
    c.responsive_rules.push(ResponsiveRule { condition: Expr::Bool(false), style: Box::new(Style::default()) });
    assert_eq!(a.merged(&c).responsive_rules.len(), 2);
}

#[test]
fn style_from_object_literal() {
    let expr = object(vec![
        ("color", Expr::String("red".to_string())),
        ("background", Expr::String("#fff".to_string())),
        ("padding", Expr::Number(ONE)),
        ("margin", Expr::Array(vec![Expr::Number(ONE), Expr::Number(TWO)])),
        ("size", Expr::Array(vec![Expr::Number(ONE), Expr::Number(TWO)])),
        ("width", Expr::Number(TWO)),
        ("height", Expr::Dimension(pct(TWO))),
        ("font", Expr::String("Mono".to_string())),
        ("font_size", Expr::Dimension(px(ONE))),
        ("card", Expr::Bool(true)),
        ("rounded", Expr::Bool(true)),
        ("wrap", Expr::String("NONE".to_string())),
        ("align", Expr::String("Center".to_string())),
        ("max_width", Expr::Dimension(pct(ONE))),
        ("min_width", Expr::Number(ONE)),
        ("line_height", Expr::Number(TWO)),
        ("font_weight", Expr::String("bold".to_string())),
        ("unknown_key", Expr::Number(ONE)),
    ]);
    let s = from_object(&expr);
    assert_eq!(s.color, Some(ColorValue::Rgba([ONE, 0, 0, ONE])));
    assert_eq!(s.background, Some(ColorValue::Hex("#fff".to_string())));
    assert_eq!(s.padding, Some(Edges { top: ONE, right: ONE, bottom: ONE, left: ONE }));
    assert_eq!(s.margin, Some(Edges { top: ONE, right: TWO, bottom: ONE, left: TWO }));
    assert_eq!(s.size, Some([ONE, TWO]));
    assert_eq!(s.width, Some(TWO));
    assert_eq!(s.relative_height, Some(pct(TWO)));
    assert!(s.height.is_none());
    assert_eq!(s.font.as_deref(), Some("Mono"));
    assert_eq!(s.relative_font_size, Some(px(ONE)));
    assert_eq!(s.card, Some(true));
    assert_eq!(s.rounded, Some(Rounded::On));
    assert_eq!(s.wrap, Some(WrapMode::NoWrap));
    assert_eq!(s.align, Some(Align::Center));
    assert_eq!(s.max_width, Some(pct(ONE)));
    assert!(s.min_width.is_none());
    assert_eq!(s.line_height, Some(TWO));
    assert_eq!(s.font_weight.as_deref(), Some("bold"));
}

#[test]
fn style_values_of_the_wrong_kind_are_ignored() {
    let expr = object(vec![
        ("font", Expr::Number(ONE)),
        ("card", Expr::String("yes".to_string())),
        ("align", Expr::String("middle".to_string())),
        ("wrap", Expr::String("word".to_string())),
    ]);
    let s = from_object(&expr);
    assert!(s.font.is_none());
    assert!(s.card.is_none());
    assert!(s.align.is_none());
    assert_eq!(s.wrap, Some(WrapMode::Auto));
}

#[test]
fn gap_and_spacing_and_rounding() {
    let s = from_object(&object(vec![("gap", Expr::Dimension(px(TWO)))]));
    assert_eq!(s.gap, Some(px(TWO)));
    assert_eq!(s.relative_spacing, Some(px(TWO)));
    let s = from_object(&object(vec![("gap", Expr::Dimension(px(TWO))), ("gap", Expr::Number(ONE))]));
    assert_eq!(s.spacing, Some(ONE));
    assert!(s.gap.is_none());
    assert_eq!(s.relative_spacing, Some(px(TWO)));
    let s = from_object(&object(vec![("rounded", Expr::Dimension(px(TWO)))]));
    assert_eq!(s.rounded, Some(Rounded::Px(TWO)));
    let s = from_object(&object(vec![("rounded", Expr::Number(ONE)), ("rounded", Expr::Bool(false))]));
    assert!(s.rounded.is_none());
}

#[test]
fn later_properties_win() {
    let s = from_object(&object(vec![
        ("color", Expr::String("red".to_string())),
        ("color", Expr::String("blue".to_string())),
    ]));
    assert_eq!(s.color, Some(ColorValue::Rgba([0, 0, ONE, ONE])));
}

#[test]
fn calc_widths_use_their_static_value() {
    let calc = Expr::CalcExpr(Box::new(Expr::Dimension(pct(ONE))));
    let expr = object(vec![("width", calc.deep_clone()), ("height", calc)]);
    let inputs = StyleInputs { conditions: vec![None, None], calcs: vec![Some(pct(TWO)), None], nested: vec![] };
    let s = style_from_expr(&expr, &inputs);
    assert_eq!(s.relative_width, Some(pct(TWO)));
    assert!(s.width_expr.is_none());
    assert!(s.relative_height.is_none());
    assert!(matches!(s.height_expr, Some(Expr::CalcExpr(_))));
}

#[test]
fn responsive_keys() {
    assert!(responsive_key("window.width <= 1000"));
    assert!(responsive_key("window.height > 300"));
    assert!(responsive_key("window.width == 5"));
    assert!(!responsive_key("window.width"));
    assert!(!responsive_key("width <= 10"));
    assert!(!responsive_key("color"));
}

#[test]
fn responsive_properties_add_rules() {
    let inner = object(vec![
        ("width", Expr::Number(ONE)),
        ("window.height > 5", object(vec![("height", Expr::Number(TWO))])),
    ]);
    let expr = object(vec![
        ("window.width <= 600", inner),
        ("window.height > 10", Expr::Number(ONE)),
        ("height", Expr::Number(TWO)),
        ("window.width >= 9", object(vec![("card", Expr::Bool(true))])),
    ]);
    let nested = StyleInputs {
        conditions: vec![None, Some(Expr::String("window.height > 5".to_string()))],
        calcs: vec![],
        nested: vec![None, None],
    };
    let inputs = StyleInputs {
        conditions: vec![Some(Expr::String("window.width <= 600".to_string())), None, None, None],
        calcs: vec![],
        nested: vec![Some(nested)],
    };
    let s = style_from_expr(&expr, &inputs);
    assert_eq!(s.responsive_rules.len(), 1);
    let rule = &s.responsive_rules[0];
    assert!(matches!(&rule.condition, Expr::String(c) if c == "window.width <= 600"));
    assert_eq!(rule.style.width, Some(ONE));
    assert_eq!(rule.style.responsive_rules.len(), 1);
    assert_eq!(rule.style.responsive_rules[0].style.height, Some(TWO));
    assert!(s.width.is_none());
    assert!(s.card.is_none());
    assert_eq!(s.height, Some(TWO));
}

#[test]
fn non_object_gives_empty_style() {
    let s = style_from_expr(&Expr::Number(ONE), &no_inputs());
    assert!(s.width.is_none());
    assert!(s.color.is_none());
    assert!(s.responsive_rules.is_empty());
}

#[test]
fn set_property_changes_one_property() {
    let mut s = Style::default();
    set_property(&mut s, "margin_top", &Expr::Dimension(px(ONE)), None);
    assert_eq!(s.margin_top, Some(px(ONE)));
    set_property(&mut s, "margin_top", &Expr::Number(TWO), None);
    assert_eq!(s.margin_top, Some(px(ONE)));
    set_property(&mut s, "font_family", &Expr::String("Noto".to_string()), None);
    assert_eq!(s.font_family.as_deref(), Some("Noto"));
}

#[test]
fn merge_styles_cases() {
    assert!(merge_styles(None, None).width.is_none());
    let mut f = Style::default();
    f.width = Some(ONE);
    f.font = Some("Serif".to_string());
    f.rounded = Some(Rounded::On);
    let mut s = Style::default();
    s.width = Some(TWO);
    s.font = Some("Sans".to_string());
    s.color = Some(ColorValue::Hex("#000".to_string()));
    assert_eq!(merge_styles(Some(&f), None).width, Some(ONE));
    assert_eq!(merge_styles(None, Some(&s)).width, Some(TWO));
    let m = merge_styles(Some(&f), Some(&s));
    assert_eq!(m.width, Some(TWO));
    assert_eq!(m.color, Some(ColorValue::Hex("#000".to_string())));
    assert_eq!(m.rounded, Some(Rounded::On));
    assert_eq!(m.font.as_deref(), Some("Sans"));
}

#[test]
fn merge_styles_second_overrides_every_property_it_sets() {
    let first = Style::default();
    let mut second = Style::default();
    second.padding = Some(Edges { top: 5, right: 5, bottom: 5, left: 5 });
    second.spacing = Some(3);
    let m = merge_styles(Some(&first), Some(&second));
    assert_eq!(m.padding, Some(Edges { top: 5, right: 5, bottom: 5, left: 5 }));
    assert_eq!(m.spacing, Some(3));
    let mut f2 = Style::default();
    f2.gap = Some(px(ONE));
    f2.spacing = Some(1);
    let m = merge_styles(Some(&f2), Some(&second));
    assert_eq!(m.gap, Some(px(ONE)));
    assert_eq!(m.spacing, Some(3));
}
