use nilo::parser::ast::{
    App, BinaryOperator, Component, DimensionValue, Expr, Flow, FlowTarget, FlowTransition, Namespace,
    NamespacedFlow, NamespacedTransition, NiloType, Timeline, Unit, UrlParam,
};
use nilo::parser::namespace::{expand_namespaced_structures, qualify_name};
use nilo::parser::parse::{assemble_app, Definition};
use nilo::parser::types::{check_type_compatibility, infer_expr_type, make_typed_expr, type_from_text};
use nilo::parser::utils::{
    color_from_expr, edges_from_expr, process_escape_sequences, size_from_expr, unquote,
};
use nilo::parser::style::{ColorValue, Edges};

const ONE: u32 = 0x3f80_0000;

fn target(name: &str) -> FlowTarget {
    FlowTarget { timeline: name.to_string(), url: None, params: vec![] }
}

fn timeline(name: &str) -> Timeline {
    Timeline {
        name: name.to_string(),
        url_pattern: None,
        font: None,
        background: None,
        body: vec![],
        whens: vec![],
    }
}

fn sources(t: &FlowTransition) -> Vec<String> {
    t.from.clone()
}

fn targets(t: &FlowTransition) -> Vec<String> {
    t.to.iter().map(|x| x.timeline.clone()).collect()
}

#[test]
fn normalize_splits_multi_source_transitions() {
    let flow = Flow {
        start: "A".to_string(),
        start_url: Some("/".to_string()),
        transitions: vec![
            FlowTransition { from: vec!["A".to_string(), "B".to_string()], to: vec![target("C")] },
            FlowTransition { from: vec!["C".to_string()], to: vec![target("A"), target("B")] },
            FlowTransition { from: vec![], to: vec![target("Z")] },
        ],
    };
    let n = flow.normalize();
    assert_eq!(n.start, "A");
    assert_eq!(n.start_url.as_deref(), Some("/"));
    assert_eq!(n.transitions.len(), 3);
    assert_eq!(sources(&n.transitions[0]), vec!["A".to_string()]);
    assert_eq!(targets(&n.transitions[0]), vec!["C".to_string()]);
    assert_eq!(sources(&n.transitions[1]), vec!["B".to_string()]);
    assert_eq!(targets(&n.transitions[1]), vec!["C".to_string()]);
    assert_eq!(sources(&n.transitions[2]), vec!["C".to_string()]);
    assert_eq!(targets(&n.transitions[2]), vec!["A".to_string(), "B".to_string()]);
}

#[test]
fn normalize_is_idempotent_on_example() {
    let flow = Flow {
        start: "A".to_string(),
        start_url: None,
        transitions: vec![FlowTransition {
            from: vec!["A".to_string(), "B".to_string()],
            to: vec![target("C")],
        }],
    };
    let once = flow.normalize();
    let once_sources: Vec<Vec<String>> = once.transitions.iter().map(sources).collect();
    let twice = once.normalize();
    let twice_sources: Vec<Vec<String>> = twice.transitions.iter().map(sources).collect();
    assert_eq!(once_sources, twice_sources);
    assert!(twice.transitions.iter().all(|t| t.from.len() == 1));
}

#[test]
fn normalize_keeps_target_params() {
    let t = FlowTarget {
        timeline: "Detail".to_string(),
        url: Some("/item/:id".to_string()),
        params: vec![("id".to_string(), UrlParam::Required("id".to_string()))],
    };
    let flow = Flow {
        start: "List".to_string(),
        start_url: None,
        transitions: vec![FlowTransition { from: vec!["List".to_string(), "Top".to_string()], to: vec![t] }],
    };
    let n = flow.normalize();
    for tr in &n.transitions {
        assert_eq!(tr.to[0].url.as_deref(), Some("/item/:id"));
        assert_eq!(tr.to[0].params[0].1, UrlParam::Required("id".to_string()));
    }
}

#[test]
fn qualify_name_adds_namespace_once() {
    assert_eq!(qualify_name("Login", "Menu"), "Login::Menu");
    assert_eq!(qualify_name("Login", "Other::Menu"), "Other::Menu");
    let once = qualify_name("Login", "Menu");
    assert_eq!(qualify_name("Login", &once), once);
}

#[test]
fn expand_namespaces_scenario() {
    let nf = NamespacedFlow {
        name: "Auth".to_string(),
        start: "Login".to_string(),
        transitions: vec![NamespacedTransition { from: vec!["Login".to_string()], to: vec!["Login".to_string()] }],
    };
    let ns = Namespace { name: "Auth".to_string(), timelines: vec![timeline("Login")], components: vec![] };
    let base = Flow {
        start: "Auth".to_string(),
        start_url: Some("/start".to_string()),
        transitions: vec![FlowTransition { from: vec!["Auth".to_string()], to: vec![target("Main")] }],
    };
    let (flow, tls) = expand_namespaced_structures(vec![nf], vec![ns], vec![timeline("Main")], Some(base)).unwrap();
    assert_eq!(flow.start, "Auth::Login");
    assert!(flow.start_url.is_none());
    assert_eq!(flow.transitions.len(), 2);
    assert_eq!(sources(&flow.transitions[0]), vec!["Auth::Login".to_string()]);
    assert_eq!(targets(&flow.transitions[0]), vec!["Main".to_string()]);
    assert_eq!(sources(&flow.transitions[1]), vec!["Auth::Login".to_string()]);
    assert_eq!(targets(&flow.transitions[1]), vec!["Auth::Login".to_string()]);
    let names: Vec<String> = tls.iter().map(|t| t.name.clone()).collect();
    assert_eq!(names, vec!["Main".to_string(), "Auth::Login".to_string()]);
}

#[test]
fn expand_without_base_flow_starts_at_first_namespaced_flow() {
    let a = NamespacedFlow { name: "A".to_string(), start: "S".to_string(), transitions: vec![] };
    let b = NamespacedFlow { name: "B".to_string(), start: "T".to_string(), transitions: vec![] };
    let (flow, tls) = expand_namespaced_structures(vec![a, b], vec![], vec![], None).unwrap();
    assert_eq!(flow.start, "A::S");
    assert!(flow.transitions.is_empty());
    assert!(tls.is_empty());
}

#[test]
fn expand_without_any_start_is_an_error() {
    let r = expand_namespaced_structures(vec![], vec![], vec![timeline("X")], None);
    assert_eq!(r.err(), Some("start定義が見つかりません".to_string()));
}

#[test]
fn default_app_starts_at_default() {
    let app = App::default();
    assert_eq!(app.flow.start, "Default");
    assert!(app.flow.start_url.is_none());
    assert!(app.flow.transitions.is_empty());
    assert!(app.timelines.is_empty());
    assert!(app.components.is_empty());
}

#[test]
fn type_display_and_compatibility() {
    let arr = NiloType::Array(Box::new(NiloType::Array(Box::new(NiloType::Number))));
    assert_eq!(arr.display(), "number[][]");
    assert_eq!(NiloType::Unknown.display(), "unknown");
    assert!(NiloType::Any.is_compatible_with(&NiloType::Bool));
    assert!(NiloType::Bool.is_compatible_with(&NiloType::Unknown));
    assert!(!NiloType::Bool.is_compatible_with(&NiloType::String));
    assert!(NiloType::Array(Box::new(NiloType::Any)).is_compatible_with(&NiloType::Array(Box::new(NiloType::Number))));
    assert!(!NiloType::Array(Box::new(NiloType::Bool)).is_compatible_with(&NiloType::Array(Box::new(NiloType::Number))));
    for t in [NiloType::Number, NiloType::String, NiloType::Bool, NiloType::Any, NiloType::Unknown] {
        assert!(t.is_compatible_with(&t));
    }
}

#[test]
fn type_compatibility_is_symmetric_on_examples() {
    let types = [NiloType::Number, NiloType::String, NiloType::Bool, NiloType::Any, NiloType::Unknown];
    for a in &types {
        for b in &types {
            assert_eq!(a.is_compatible_with(b), b.is_compatible_with(a));
        }
    }
}

#[test]
fn check_type_compatibility_reports_both_types() {
    assert_eq!(check_type_compatibility(&NiloType::Number, &NiloType::Number), Ok(()));
    assert_eq!(check_type_compatibility(&NiloType::Number, &NiloType::Any), Ok(()));
    assert_eq!(
        check_type_compatibility(&NiloType::Number, &NiloType::String),
        Err("型エラー: number 型が期待されていますが、string 型が見つかりました".to_string())
    );
    assert_eq!(
        check_type_compatibility(&NiloType::Array(Box::new(NiloType::Bool)), &NiloType::Number),
        Err("型エラー: bool[] 型が期待されていますが、number 型が見つかりました".to_string())
    );
}

#[test]
fn infer_types_of_expressions() {
    assert_eq!(infer_expr_type(&Expr::Number(0)), NiloType::Number);
    assert_eq!(infer_expr_type(&Expr::String("a".to_string())), NiloType::String);
    assert_eq!(infer_expr_type(&Expr::Array(vec![])), NiloType::Array(Box::new(NiloType::Any)));
    assert_eq!(
        infer_expr_type(&Expr::Array(vec![Expr::Bool(true), Expr::Number(0)])),
        NiloType::Array(Box::new(NiloType::Bool))
    );
    let sum = Expr::BinaryOp { left: Box::new(Expr::Number(0)), op: BinaryOperator::Add, right: Box::new(Expr::Number(ONE)) };
    assert_eq!(infer_expr_type(&sum), NiloType::Number);
    let concat = Expr::BinaryOp {
        left: Box::new(Expr::String("a".to_string())),
        op: BinaryOperator::Add,
        right: Box::new(Expr::Number(ONE)),
    };
    assert_eq!(infer_expr_type(&concat), NiloType::String);
    let cmp = Expr::BinaryOp { left: Box::new(Expr::Number(0)), op: BinaryOperator::Lt, right: Box::new(Expr::Number(ONE)) };
    assert_eq!(infer_expr_type(&cmp), NiloType::Bool);
    assert_eq!(infer_expr_type(&Expr::Ident("x".to_string())), NiloType::Unknown);
    let dim = Expr::Dimension(DimensionValue { value: ONE, unit: Unit::Percent });
    assert_eq!(infer_expr_type(&Expr::CalcExpr(Box::new(dim))), NiloType::Number);
    let typed = make_typed_expr(Expr::Bool(false));
    assert_eq!(typed.inferred_type, NiloType::Bool);
}

#[test]
fn unquote_strips_quotes_and_escapes() {
    assert_eq!(unquote("  \"hello\"  "), "hello");
    assert_eq!(unquote("「こんにちは」"), "こんにちは");
    assert_eq!(unquote("plain"), "plain");
    assert_eq!(unquote("\"a\\nb\""), "a\nb");
    assert_eq!(unquote("\"\""), "");
    assert_eq!(unquote("\"open"), "\"open");
}

#[test]
fn escape_sequences() {
    assert_eq!(process_escape_sequences("a\\tb\\\\c"), "a\tb\\c");
    assert_eq!(process_escape_sequences("\\\"q\\'"), "\"q'");
    assert_eq!(process_escape_sequences("keep \\x"), "keep \\x");
    assert_eq!(process_escape_sequences("end\\"), "end\\");
    assert_eq!(process_escape_sequences("\\r\\n"), "\r\n");
}

#[test]
fn colors_from_expressions() {
    assert_eq!(color_from_expr(&Expr::String("RED".to_string())), Some(ColorValue::Rgba([ONE, 0, 0, ONE])));
    assert_eq!(color_from_expr(&Expr::String("transparent".to_string())), Some(ColorValue::Rgba([0, 0, 0, 0])));
    assert_eq!(color_from_expr(&Expr::String("#00ff00".to_string())), Some(ColorValue::Hex("#00ff00".to_string())));
    assert_eq!(color_from_expr(&Expr::String("teal".to_string())), Some(ColorValue::Hex("teal".to_string())));
    assert_eq!(
        color_from_expr(&Expr::Array(vec![Expr::Number(ONE), Expr::Bool(true), Expr::Number(ONE)])),
        Some(ColorValue::Rgba([ONE, 0, ONE, ONE]))
    );
    assert_eq!(
        color_from_expr(&Expr::Array(vec![Expr::Number(0), Expr::Number(0), Expr::Number(0), Expr::Number(0)])),
        Some(ColorValue::Rgba([0, 0, 0, 0]))
    );
    assert_eq!(color_from_expr(&Expr::Array(vec![Expr::Number(0)])), None);
    assert_eq!(color_from_expr(&Expr::Bool(true)), None);
}

#[test]
fn edges_and_sizes_from_expressions() {
    assert_eq!(edges_from_expr(&Expr::Number(ONE)), Some(Edges { top: ONE, right: ONE, bottom: ONE, left: ONE }));
    assert_eq!(
        edges_from_expr(&Expr::Array(vec![Expr::Number(ONE), Expr::Number(0)])),
        Some(Edges { top: ONE, right: 0, bottom: ONE, left: 0 })
    );
    assert_eq!(
        edges_from_expr(&Expr::Array(vec![Expr::Number(1), Expr::Number(2), Expr::Number(3), Expr::Number(4)])),
        Some(Edges { top: 1, right: 2, bottom: 3, left: 4 })
    );
    assert_eq!(edges_from_expr(&Expr::Array(vec![Expr::Number(1)])), None);
    let obj = Expr::Object(vec![
        ("left".to_string(), Expr::Number(5)),
        ("top".to_string(), Expr::Number(6)),
        ("middle".to_string(), Expr::Number(7)),
        ("left".to_string(), Expr::Number(8)),
    ]);
    assert_eq!(edges_from_expr(&obj), Some(Edges { top: 6, right: 0, bottom: 0, left: 8 }));
    assert_eq!(edges_from_expr(&Expr::String("x".to_string())), None);
    assert_eq!(size_from_expr(&Expr::Array(vec![Expr::Number(3), Expr::Number(4), Expr::Number(5)])), Some([3, 4]));
    assert_eq!(size_from_expr(&Expr::Array(vec![Expr::Number(3)])), None);
    assert_eq!(size_from_expr(&Expr::Number(3)), None);
}

fn simple_flow(start: &str, transitions: Vec<(&str, &str)>) -> Flow {
    Flow {
        start: start.to_string(),
        start_url: None,
        transitions: transitions
            .into_iter()
            .map(|(a, b)| FlowTransition { from: vec![a.to_string()], to: vec![target(b)] })
            .collect(),
    }
}

fn component(name: &str) -> Component {
    Component { name: name.to_string(), params: vec![], font: None, default_style: None, body: vec![], whens: vec![] }
}

#[test]
fn assemble_simple_flow() {
    let defs = vec![
        Definition::Flow(simple_flow("TopTimeline", vec![("TopTimeline", "NextTimeline")])),
        Definition::Timeline(timeline("TopTimeline")),
        Definition::Timeline(timeline("NextTimeline")),
    ];
    let app = assemble_app(defs).unwrap();
    assert_eq!(app.flow.start, "TopTimeline");
    assert_eq!(app.flow.transitions.len(), 1);
    assert_eq!(app.timelines.len(), 2);
    assert_eq!(app.timelines[1].name, "NextTimeline");
}

#[test]
fn assemble_with_component() {
    let defs = vec![
        Definition::Component(component("CustomButton")),
        Definition::Flow(simple_flow("TopTimeline", vec![])),
        Definition::Timeline(timeline("TopTimeline")),
    ];
    let app = assemble_app(defs).unwrap();
    assert_eq!(app.components.len(), 1);
    assert_eq!(app.components[0].name, "CustomButton");
}

#[test]
fn assemble_without_flow_is_an_error() {
    let defs = vec![Definition::Component(component("TestComponent"))];
    let err = assemble_app(defs).err().unwrap();
    assert!(err.contains("フロー定義が見つかりません"));
}

#[test]
fn assemble_with_two_flows_is_an_error() {
    let defs = vec![
        Definition::Flow(simple_flow("Scene1", vec![])),
        Definition::Timeline(timeline("Scene1")),
        Definition::Flow(simple_flow("Scene2", vec![])),
        Definition::Timeline(timeline("Scene2")),
    ];
    let err = assemble_app(defs).err().unwrap();
    assert_eq!(err, "フロー定義は1つまでしか許可されていません");
}

#[test]
fn assemble_flattens_namespaces() {
    let defs = vec![
        Definition::NamespacedFlow(NamespacedFlow {
            name: "Shop".to_string(),
            start: "List".to_string(),
            transitions: vec![NamespacedTransition { from: vec!["List".to_string()], to: vec!["Cart".to_string()] }],
        }),
        Definition::Namespace(Namespace { name: "Shop".to_string(), timelines: vec![timeline("List"), timeline("Cart")], components: vec![] }),
        Definition::Timeline(timeline("Home")),
    ];
    let app = assemble_app(defs).unwrap();
    assert_eq!(app.flow.start, "Shop::List");
    assert_eq!(app.flow.transitions.len(), 1);
    assert_eq!(sources(&app.flow.transitions[0]), vec!["Shop::List".to_string()]);
    assert_eq!(targets(&app.flow.transitions[0]), vec!["Shop::Cart".to_string()]);
    let names: Vec<String> = app.timelines.iter().map(|t| t.name.clone()).collect();
    assert_eq!(names, vec!["Home".to_string(), "Shop::List".to_string(), "Shop::Cart".to_string()]);
}

#[test]
fn assemble_namespace_without_start_is_an_error() {
    let defs = vec![Definition::Namespace(Namespace { name: "N".to_string(), timelines: vec![], components: vec![] })];
    assert_eq!(assemble_app(defs).err(), Some("start定義が見つかりません".to_string()));
}

#[test]
fn types_from_text() {
    assert_eq!(
        type_from_text("Number[][]", "Number"),
        NiloType::Array(Box::new(NiloType::Array(Box::new(NiloType::Number))))
    );
    assert_eq!(type_from_text("string", "string"), NiloType::String);
    assert_eq!(type_from_text("Any[]", "Any"), NiloType::Array(Box::new(NiloType::Any)));
    assert_eq!(type_from_text("Foo[]", "Foo"), NiloType::Array(Box::new(NiloType::Unknown)));
    assert_eq!(type_from_text("bool [ ] []", "bool"), NiloType::Array(Box::new(NiloType::Bool)));
    assert_eq!(type_from_text("BOOL", "BOOL"), NiloType::Unknown);
}

#[test]
fn escaped_text_reads_back() {
    let t = "line1\nline2\t\"q\" 'a' \\ end\r";
    let escaped: String = t
        .chars()
        .map(|c| match c {
            '\n' => "\\n".to_string(),
            '\t' => "\\t".to_string(),
            '\r' => "\\r".to_string(),
            '\\' => "\\\\".to_string(),
            '"' => "\\\"".to_string(),
            '\'' => "\\'".to_string(),
            c => c.to_string(),
        })
        .collect();
    assert_eq!(process_escape_sequences(&escaped), t);
    assert_eq!(process_escape_sequences("no escapes here"), "no escapes here");
}

#[test]
fn assemble_normalises_the_flow() {
    let flow = Flow {
        start: "A".to_string(),
        start_url: None,
        transitions: vec![FlowTransition { from: vec!["A".to_string(), "B".to_string()], to: vec![target("C")] }],
    };
    let app = assemble_app(vec![Definition::Flow(flow), Definition::Timeline(timeline("A"))]).unwrap();
    assert_eq!(app.flow.transitions.len(), 2);
    assert_eq!(sources(&app.flow.transitions[0]), vec!["A".to_string()]);
    assert_eq!(sources(&app.flow.transitions[1]), vec!["B".to_string()]);
}
