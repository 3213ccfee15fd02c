use std::hash::{Hash, Hasher};

use nilo::parser::ast::{ComponentArg, EventExpr, Expr, ViewNode, WithSpan};
use nilo::parser::style::Style;
use nilo::ui::layout_diff::{
    event_debug, node_signature, node_type_name, pass_items, signature_exprs_of, LayoutDiffEngine, NodeHash, NodeId,
};

fn text_node(format: &str) -> WithSpan<ViewNode> {
    WithSpan {
        node: ViewNode::Text { format: format.to_string(), args: vec![] },
        line: 1,
        column: 1,
        style: None,
    }
}

fn hash_with(node: &WithSpan<ViewNode>, eval: &dyn Fn(&Expr) -> String, style_text: &str) -> NodeHash {
    let exprs = signature_exprs_of(&node.node);
    let evaluated: Vec<String> = exprs.iter().map(|e| eval(e)).collect();
    NodeHash::from_node(node, &evaluated, style_text)
}

#[test]
fn test_node_id() {
    let root = NodeId::new();
    let child1 = root.child(0, "VStack");
    let child2 = root.child(1, "HStack");

    assert_eq!(child1.key(), "VStack_0");
    assert_eq!(child2.key(), "HStack_1");

    let grandchild = child1.child(0, "Text");
    assert_eq!(grandchild.key(), "VStack_0/Text_0");
}

#[test]
fn test_node_hash() {
    let eval = |_: &Expr| String::from("test");

    let node1 = text_node("Hello");
    let node2 = text_node("Hello");
    let node3 = text_node("World");

    let hash1 = hash_with(&node1, &eval, "");
    let hash2 = hash_with(&node2, &eval, "");
    let hash3 = hash_with(&node3, &eval, "");

    assert_eq!(hash1, hash2);
    assert_ne!(hash1, hash3);
}

#[test]
fn node_id_root_key_is_empty() {
    assert_eq!(NodeId::new().key(), "");
}

#[test]
fn node_id_multi_digit_index() {
    let id = NodeId::new().child(12, "ForEach").child(305, "Text");
    assert_eq!(id.key(), "ForEach_12/Text_305");
}

#[test]
fn hash_is_lowercase_hex() {
    let h = NodeHash::from_signature("Text:Hello");
    let s = h.as_str();
    assert!(!s.is_empty());
    assert!(s.chars().all(|c| c.is_ascii_digit() || ('a'..='f').contains(&c)));
    assert!(s.len() == 1 || !s.starts_with('0'));
}

#[test]
fn hash_depends_on_signature() {
    assert_eq!(NodeHash::from_signature("A"), NodeHash::from_signature("A"));
    assert_ne!(NodeHash::from_signature("A"), NodeHash::from_signature("B"));
}

#[test]
fn hash_includes_style_only_when_styled() {
    let eval = |_: &Expr| String::from("x");
    let plain = text_node("Hi");
    let mut styled = text_node("Hi");
    styled.style = Some(Style::default());
    assert_eq!(hash_with(&plain, &eval, "w:10"), hash_with(&plain, &eval, ""));
    assert_ne!(hash_with(&styled, &eval, "w:10"), hash_with(&styled, &eval, "w:20"));
    assert_eq!(hash_with(&styled, &eval, ""), hash_with(&plain, &eval, ""));
}

#[test]
fn hash_uses_evaluated_arguments() {
    let node = WithSpan {
        node: ViewNode::Text { format: "{}".to_string(), args: vec![Expr::Ident("name".to_string())] },
        line: 1,
        column: 1,
        style: None,
    };
    let a = hash_with(&node, &|_: &Expr| String::from("Alice"), "");
    let b = hash_with(&node, &|_: &Expr| String::from("Bob"), "");
    assert_ne!(a, b);
}

#[test]
fn signature_of_text_with_arguments() {
    let node = ViewNode::Text {
        format: "Hello {}".to_string(),
        args: vec![Expr::Ident("a".to_string()), Expr::Ident("b".to_string())],
    };
    assert_eq!(signature_exprs_of(&node).len(), 2);
    let s = node_signature(&node, &vec!["1".to_string(), "2".to_string()]);
    assert_eq!(s, "Text:Hello {}12");
}

#[test]
fn signature_of_containers_counts_children() {
    let v = ViewNode::VStack(vec![text_node("a"), text_node("b"), text_node("c")]);
    assert_eq!(node_signature(&v, &vec![]), "VStack:3");
    let h = ViewNode::HStack(vec![]);
    assert_eq!(node_signature(&h, &vec![]), "HStack:0");
}

#[test]
fn signature_of_component_call() {
    let node = ViewNode::ComponentCall {
        name: "Card".to_string(),
        args: vec![
            ComponentArg::Positional(Expr::Number(0)),
            ComponentArg::Named("title".to_string(), Expr::String("t".to_string())),
        ],
        slots: vec![],
    };
    assert_eq!(signature_exprs_of(&node).len(), 2);
    let s = node_signature(&node, &vec!["1".to_string(), "T".to_string()]);
    assert_eq!(s, "Component:Card1title:T");
}

#[test]
fn signature_of_if_and_match() {
    let node = ViewNode::If {
        condition: Expr::Bool(true),
        then_body: vec![text_node("a"), text_node("b")],
        else_body: None,
    };
    assert_eq!(node_signature(&node, &vec!["true".to_string()]), "If:true2:0");
    let node = ViewNode::Match {
        expr: Expr::Ident("mode".to_string()),
        arms: vec![(Expr::String("a".to_string()), vec![])],
        default: Some(vec![]),
    };
    assert_eq!(node_signature(&node, &vec!["dark".to_string()]), "Match:darkarms:1:default:true");
}

#[test]
fn signature_of_actions() {
    let insert = ViewNode::ListInsert {
        path: "items".to_string(),
        index: 3,
        value: Expr::Number(0),
    };
    assert_eq!(node_signature(&insert, &vec!["7".to_string()]), "ListInsert:items:37");
    let let_decl = ViewNode::LetDecl {
        name: "n".to_string(),
        value: Expr::Number(0),
        mutable: false,
        declared_type: None,
    };
    assert_eq!(node_signature(&let_decl, &vec!["0".to_string()]), "Const:n0");
    let toggle = ViewNode::Toggle { path: "open".to_string() };
    assert_eq!(node_signature(&toggle, &vec![]), "Toggle:open");
}

#[test]
fn signature_of_when_uses_debug_text() {
    let node = ViewNode::When {
        event: EventExpr::ButtonPressed("ok".to_string()),
        actions: vec![text_node("a")],
    };
    assert_eq!(node_signature(&node, &vec![]), "When:ButtonPressed(\"ok\"):1");
    let e = EventExpr::KeyPressed("field".to_string(), "Enter".to_string());
    assert_eq!(event_debug(&e), "KeyPressed(\"field\", \"Enter\")");
    let e = EventExpr::TextChanged("a\"b".to_string());
    assert_eq!(event_debug(&e), "TextChanged(\"a\\\"b\")");
}

#[test]
fn node_type_names() {
    assert_eq!(node_type_name(&ViewNode::SpacingAuto), "SpacingAuto");
    assert_eq!(node_type_name(&ViewNode::Toggle { path: "x".to_string() }), "Toggle");
    let l = ViewNode::LetDecl {
        name: "n".to_string(),
        value: Expr::Number(0),
        mutable: true,
        declared_type: None,
    };
    assert_eq!(node_type_name(&l), "Let");
}

#[test]
fn fingerprint_is_the_default_hasher_hash_in_hex() {
    let node = text_node("Hello");
    let h = hash_with(&node, &|_: &Expr| String::new(), "");
    let mut hasher = std::collections::hash_map::DefaultHasher::new();
    String::from("Text:Hello").hash(&mut hasher);
    assert_eq!(h.as_str(), format!("{:x}", hasher.finish()));
}

fn items(pairs: &[(&str, &str)]) -> Vec<(String, NodeHash)> {
    pairs.iter().map(|(k, sig)| (k.to_string(), NodeHash::from_signature(sig))).collect()
}

#[test]
fn diff_engine_marks_new_and_changed_nodes() {
    let mut e = LayoutDiffEngine::new();
    assert_eq!(e.dirty_count(), 0);
    e.compute_diff(&items(&[("Text_0", "Text:a"), ("Button_1", "Button:b")]));
    assert_eq!(e.dirty_count(), 2);
    e.compute_diff(&items(&[("Text_0", "Text:a"), ("Button_1", "Button:b")]));
    assert_eq!(e.dirty_count(), 0);
    e.compute_diff(&items(&[("Text_0", "Text:changed"), ("Button_1", "Button:b"), ("Image_2", "Image:p")]));
    assert_eq!(e.dirty_count(), 2);
    e.compute_diff(&items(&[("Text_0", "Text:changed"), ("Button_1", "Button:b"), ("Image_2", "Image:p")]));
    assert_eq!(e.dirty_count(), 0);
}

#[test]
fn diff_engine_record_and_clear() {
    let mut e = LayoutDiffEngine::new();
    assert!(e.record("A_0", &NodeHash::from_signature("x")));
    assert_eq!(e.dirty_count(), 1);
    e.compute_diff(&items(&[("A_0", "x")]));
    assert_eq!(e.dirty_count(), 1);
    assert!(!e.record("A_0", &NodeHash::from_signature("x")));
    assert!(e.record("A_0", &NodeHash::from_signature("y")));
    e.clear_cache();
    assert_eq!(e.dirty_count(), 0);
    e.compute_diff(&items(&[("A_0", "x")]));
    assert_eq!(e.dirty_count(), 1);
}

#[test]
fn child_keys_extend_the_parent_key() {
    let a = NodeId::new().child(2, "VStack");
    let b = a.child(0, "Text");
    assert_eq!(b.key(), format!("{}/{}", a.key(), "Text_0"));
    assert!(!a.key().is_empty());
}

#[test]
fn pass_items_key_nodes_by_kind_and_position() {
    let nodes = vec![text_node("a"), text_node("b"), WithSpan { node: ViewNode::SpacingAuto, line: 1, column: 1, style: None }];
    let hashes = vec![
        NodeHash::from_signature("1"),
        NodeHash::from_signature("2"),
        NodeHash::from_signature("3"),
    ];
    let items = pass_items(&nodes, hashes);
    let keys: Vec<&str> = items.iter().map(|(k, _)| k.as_str()).collect();
    assert_eq!(keys, vec!["Text_0", "Text_1", "SpacingAuto_2"]);
    assert_eq!(items[1].1, NodeHash::from_signature("2"));
    let root = NodeId::new();
    assert_eq!(items[2].0, root.child(2, "SpacingAuto").key());
    let mut e = LayoutDiffEngine::new();
    e.compute_diff(&items);
    assert_eq!(e.dirty_count(), 3);
    e.compute_diff(&items);
    assert_eq!(e.dirty_count(), 0);
}
