use nilo::parser::stencil_call::{stencil_from_call, StencilArgValue};
use nilo::stencil::stencil::Stencil;

const ONE: u32 = 0x3f80_0000;
const HALF: u32 = 0x3f00_0000;

fn args(list: Vec<(&str, StencilArgValue)>) -> Vec<(String, StencilArgValue)> {
    list.into_iter().map(|(k, v)| (k.to_string(), v)).collect()
}

#[test]
fn rect_with_defaults() {
    let a = args(vec![("x", StencilArgValue::Number(10)), ("width", StencilArgValue::Number(20)), ("r", StencilArgValue::Number(0))]);
    match stencil_from_call("rect", &a) {
        Some(Stencil::Rect { position, width, height, color, scroll, depth }) => {
            assert_eq!(position, [10, 0]);
            assert_eq!(width, 20);
            assert_eq!(height, 0);
            assert_eq!(color, [0, ONE, ONE, ONE]);
            assert!(scroll);
            assert_eq!(depth, HALF);
        }
        other => panic!("unexpected {:?}", other),
    }
}

#[test]
fn later_arguments_override_and_wrong_types_default() {
    let a = args(vec![
        ("radius", StencilArgValue::Number(3)),
        ("radius", StencilArgValue::Number(4)),
        ("scroll", StencilArgValue::Number(0)),
        ("depth", StencilArgValue::Text("deep".to_string())),
    ]);
    match stencil_from_call("circle", &a) {
        Some(Stencil::Circle { radius, scroll, depth, .. }) => {
            assert_eq!(radius, 4);
            assert!(scroll);
            assert_eq!(depth, HALF);
        }
        other => panic!("unexpected {:?}", other),
    }
}

#[test]
fn text_and_image_stencils() {
    let a = args(vec![("content", StencilArgValue::Text("hi".to_string())), ("scroll", StencilArgValue::Bool(false))]);
    match stencil_from_call("text", &a) {
        Some(Stencil::Text { content, size, color, font, max_width, scroll, depth, .. }) => {
            assert_eq!(content, "hi");
            assert_eq!(f32::from_bits(size), 16.0);
            assert_eq!(color, [0, 0, 0, ONE]);
            assert_eq!(font, "sans");
            assert!(max_width.is_none());
            assert!(!scroll);
            assert_eq!(f32::from_bits(depth), 0.1);
        }
        other => panic!("unexpected {:?}", other),
    }
    match stencil_from_call("image", &args(vec![])) {
        Some(Stencil::Image { path, width, .. }) => {
            assert_eq!(path, "");
            assert_eq!(width, 0);
        }
        other => panic!("unexpected {:?}", other),
    }
    match stencil_from_call("rounded_rect", &args(vec![])) {
        Some(Stencil::RoundedRect { radius, .. }) => assert_eq!(f32::from_bits(radius), 8.0),
        other => panic!("unexpected {:?}", other),
    }
    match stencil_from_call("triangle", &args(vec![("x3", StencilArgValue::Number(7))])) {
        Some(Stencil::Triangle { p3, .. }) => assert_eq!(p3, [7, 0]),
        other => panic!("unexpected {:?}", other),
    }
}

#[test]
fn rejected_calls() {
    assert!(stencil_from_call("hexagon", &args(vec![])).is_none());
    let a = args(vec![("x", StencilArgValue::Ident("pos".to_string()))]);
    assert!(stencil_from_call("rect", &a).is_none());
}
