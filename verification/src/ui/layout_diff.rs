//! Identifying nodes across layouts: node paths and their keys, node kind
//! names, and the hashes by which changed nodes are detected.
use vstd::prelude::*;
use vstd::string::StringExecFns;

use crate::parser::ast::{exprs_view, ComponentArg, EventExpr, Expr, ViewNode, WithSpan};
use crate::parser::flow::texts;
use crate::text::{concat_all, decimal, digit_char, join, push_char, push_decimal, str_eq};

verus! {

broadcast use vstd::std_specs::vec::group_vec_axioms;

/// The path of a node from the root: one `kind_index` segment per level.
#[derive(Debug)]
pub struct NodeId {
    path: Vec<String>,
}

impl View for NodeId {
    type V = Seq<Seq<char>>;

    closed spec fn view(&self) -> Seq<Seq<char>> {
        self.path@.map_values(|s: String| s@)
    }
}

/// The segment naming the `index`-th child of kind `node_type`.
pub open spec fn segment(node_type: Seq<char>, index: nat) -> Seq<char> {
    node_type + "_"@ + decimal(index)
}

/// Whether every segment of a node path is non-empty.
pub open spec fn node_path_valid(path: Seq<Seq<char>>) -> bool {
    forall|i: int| 0 <= i < path.len() ==> (#[trigger] path[i]).len() > 0
}

impl NodeId {
    /// Every segment of a node path is non-empty.
    #[verifier::type_invariant]
    spec fn segments_non_empty(self) -> bool {
        node_path_valid(self.path@.map_values(|s: String| s@))
    }
}

proof fn lemma_join_empty(parts: Seq<Seq<char>>, sep: Seq<char>)
    requires
        node_path_valid(parts),
    ensures
        (join(parts, sep).len() == 0) == (parts.len() == 0),
    decreases parts.len(),
{
    if parts.len() > 1 {
        assert(parts.last() == parts[parts.len() - 1]);
    } else if parts.len() == 1 {
        assert(parts[0].len() > 0);
    }
}

impl NodeId {
    /// The root's path, with no segment.
    pub fn new() -> (id: NodeId)
        ensures
            id@ == Seq::<Seq<char>>::empty(),
    {
        let id = NodeId { path: Vec::new() };
        proof {
            assert(id@ =~= Seq::<Seq<char>>::empty());
        }
        id
    }

    /// The path of this node's `index`-th child, of kind `node_type`. Its key
    /// is this node's key, `/` (unless this is the root) and the segment.
    pub fn child(&self, index: usize, node_type: &str) -> (id: NodeId)
        ensures
            id@ == self@.push(segment(node_type@, index as nat)),
            node_path_valid(id@),
            join(id@, "/"@) == if self@.len() == 0 {
                segment(node_type@, index as nat)
            } else {
                join(self@, "/"@) + "/"@ + segment(node_type@, index as nat)
            },
    {
        proof {
            use_type_invariant(self);
        }
        let mut path: Vec<String> = Vec::new();
        let mut i: usize = 0;
        while i < self.path.len()
            invariant
                i <= self.path.len(),
                path@.len() == i,
                forall|k: int| 0 <= k < i ==> #[trigger] path@[k] == self.path@[k],
            decreases self.path.len() - i,
        {
            path.push(self.path[i].clone());
            i = i + 1;
        }
        let mut seg = String::from_str(node_type);
        seg.append("_");
        push_decimal(&mut seg, index);
        proof {
            assert(seg@.len() > 0) by {
                assert(decimal(index as nat).len() > 0);
            }
            let v = path@.push(seg).map_values(|s: String| s@);
            assert forall|k: int| 0 <= k < v.len() implies (#[trigger] v[k]).len() > 0 by {
                if k < path@.len() {
                    assert(v[k] == self@[k]);
                    assert(self.path@.map_values(|s: String| s@)[k] == self@[k]);
                }
            }
        }
        path.push(seg);
        let id = NodeId { path };
        proof {
            use_type_invariant(&id);
            assert(id@ =~= self@.push(segment(node_type@, index as nat)));
            lemma_child_key(self@, segment(node_type@, index as nat));
        }
        id
    }

    /// The key of the path: its segments joined by `/`. It is empty
    /// exactly for the root.
    pub fn key(&self) -> (k: String)
        ensures
            k@ == join(self@, "/"@),
            (k@.len() == 0) == (self@.len() == 0),
    {
        proof {
            use_type_invariant(self);
            lemma_join_empty(self@, "/"@);
        }
        let ghost parts = self@;
        let mut k = String::new();
        let mut i: usize = 0;
        while i < self.path.len()
            invariant
                i <= self.path.len(),
                parts == self@,
                parts.len() == self.path@.len(),
                forall|j: int| 0 <= j < parts.len() ==> #[trigger] parts[j] == self.path@[j]@,
                k@ == join(parts.take(i as int), "/"@),
            decreases self.path.len() - i,
        {
            proof {
                assert(parts.take(i + 1).drop_last() =~= parts.take(i as int));
                assert(parts.take(i + 1).last() == self.path@[i as int]@);
            }
            if i > 0 {
                k.append("/");
            } else {
                proof {
                    assert(join(parts.take(0), "/"@) =~= Seq::<char>::empty());
                    assert(parts.take(1) =~= seq![parts[0]]);
                }
            }
            k.append(self.path[i].as_str());
            proof {
                if i == 0 {
                    assert(k@ =~= join(parts.take(1), "/"@));
                }
            }
            i = i + 1;
        }
        proof {
            assert(parts.take(parts.len() as int) =~= parts);
        }
        k
    }
}

/// The key of a child's path is its parent's key, then `/` (unless the
/// parent is the root), then the child's segment.
pub proof fn lemma_child_key(parent: Seq<Seq<char>>, seg: Seq<char>)
    ensures
        join(parent.push(seg), "/"@) == if parent.len() == 0 {
            seg
        } else {
            join(parent, "/"@) + "/"@ + seg
        },
{
    let p = parent.push(seg);
    assert(p.drop_last() =~= parent);
    assert(p.last() == seg);
    if parent.len() == 0 {
        assert(p[0] == seg);
    }
}

/// The lowercase hexadecimal digit for `d < 16`.
pub open spec fn hex_digit(d: nat) -> char {
    if d < 10 {
        crate::text::digit_char(d)
    } else if d == 10 {
        'a'
    } else if d == 11 {
        'b'
    } else if d == 12 {
        'c'
    } else if d == 13 {
        'd'
    } else if d == 14 {
        'e'
    } else {
        'f'
    }
}

/// The lowercase hexadecimal numeral of `n`, without leading zeros, as
/// `{:x}` writes it.
pub open spec fn hex(n: nat) -> Seq<char>
    decreases n,
{
    if n < 16 {
        seq![hex_digit(n)]
    } else {
        hex(n / 16).push(hex_digit(n % 16))
    }
}

proof fn lemma_hex_len(n: nat)
    ensures
        hex(n).len() >= 1,
        n >= 16 ==> hex(n).len() >= 2,
    decreases n,
{
    if n >= 16 {
        lemma_hex_len(n / 16);
    }
}

/// Different numbers have different hexadecimal numerals, so two node
/// fingerprints are equal exactly when their hashes are.
pub proof fn lemma_hex_injective(a: nat, b: nat)
    requires
        a != b,
    ensures
        hex(a) != hex(b),
    decreases a,
{
    lemma_hex_len(a);
    lemma_hex_len(b);
    if a < 16 && b < 16 {
        assert(hex(a)[0] != hex(b)[0]);
    } else if a < 16 || b < 16 {
        assert(hex(a).len() != hex(b).len());
    } else if a % 16 != b % 16 {
        assert(hex(a).last() == hex_digit(a % 16));
        assert(hex(b).last() == hex_digit(b % 16));
        assert(hex(a).last() != hex(b).last());
    } else {
        assert(a / 16 != b / 16);
        lemma_hex_injective(a / 16, b / 16);
        if hex(a) == hex(b) {
            assert(hex(a).drop_last() =~= hex(a / 16));
            assert(hex(b).drop_last() =~= hex(b / 16));
        }
    }
}

fn hex_digit_exec(d: u64) -> (c: char)
    requires
        d < 16,
    ensures
        c == hex_digit(d as nat),
{
    if d == 0 {
        '0'
    } else if d == 1 {
        '1'
    } else if d == 2 {
        '2'
    } else if d == 3 {
        '3'
    } else if d == 4 {
        '4'
    } else if d == 5 {
        '5'
    } else if d == 6 {
        '6'
    } else if d == 7 {
        '7'
    } else if d == 8 {
        '8'
    } else if d == 9 {
        '9'
    } else if d == 10 {
        'a'
    } else if d == 11 {
        'b'
    } else if d == 12 {
        'c'
    } else if d == 13 {
        'd'
    } else if d == 14 {
        'e'
    } else {
        'f'
    }
}

fn push_hex(out: &mut String, n: u64)
    ensures
        final(out)@ == old(out)@ + hex(n as nat),
    decreases n,
{
    if n >= 16 {
        push_hex(out, n / 16);
    }
    push_char(out, hex_digit_exec(n % 16));
    proof {
        if n >= 16 {
            assert(old(out)@ + hex((n / 16) as nat) + seq![hex_digit((n % 16) as nat)] =~= old(out)@ + hex(
                n as nat,
            ));
        } else {
            assert(old(out)@.push(hex_digit((n % 16) as nat)) =~= old(out)@ + hex(n as nat));
        }
    }
}

/// The hash std's `DefaultHasher` (created with `new`) gives a string.
pub uninterp spec fn spec_default_hash(s: Seq<char>) -> u64;

/// Hashes a string with a fresh std `DefaultHasher` (std
/// `BuildHasher::hash_one`). Every `DefaultHasher` created by `new` or
/// `default` is the same, so the hash depends on the string alone; it is
/// named by `spec_default_hash` and nothing more is claimed of it.
#[verifier::external_body]
fn default_hash(s: &str) -> (h: u64)
    ensures
        h == spec_default_hash(s@),
{
    let builder = std::hash::BuildHasherDefault::<std::collections::hash_map::DefaultHasher>::default();
    std::hash::BuildHasher::hash_one(&builder, s)
}

/// A fingerprint of a node's kind, main attributes and style, by which a
/// changed node is told from an unchanged one.
#[derive(Debug, Clone, PartialEq, Eq, Hash)]
pub struct NodeHash {
    hash: String,
}

impl View for NodeHash {
    type V = Seq<char>;

    closed spec fn view(&self) -> Seq<char> {
        self.hash@
    }
}

impl NodeHash {
    /// The fingerprint of a node signature: the lowercase hexadecimal
    /// numeral of its `DefaultHasher` hash.
    pub fn from_signature(signature: &str) -> (h: NodeHash)
        ensures
            h@ == hex(spec_default_hash(signature@) as nat),
    {
        let mut s = String::new();
        push_hex(&mut s, default_hash(signature));
        NodeHash { hash: s }
    }

    /// The fingerprint's text.
    pub fn as_str(&self) -> (s: &str)
        ensures
            s@ == self@,
    {
        self.hash.as_str()
    }
}

/// The name by which a node's kind appears in node paths.
pub open spec fn node_kind_name(node: ViewNode) -> Seq<char> {
    match node {
        ViewNode::Text { .. } => "Text"@,
        ViewNode::Button { .. } => "Button"@,
        ViewNode::Image { .. } => "Image"@,
        ViewNode::TextInput { .. } => "TextInput"@,
        ViewNode::VStack(_) => "VStack"@,
        ViewNode::HStack(_) => "HStack"@,
        ViewNode::Spacing(_) => "Spacing"@,
        ViewNode::SpacingAuto => "SpacingAuto"@,
        ViewNode::ForEach { .. } => "ForEach"@,
        ViewNode::If { .. } => "If"@,
        ViewNode::Match { .. } => "Match"@,
        ViewNode::ComponentCall { .. } => "Component"@,
        ViewNode::Slot { .. } => "Slot"@,
        ViewNode::SlotCheck { .. } => "SlotCheck"@,
        ViewNode::Stencil(_) => "Stencil"@,
        ViewNode::RustCall { .. } => "RustCall"@,
        ViewNode::DynamicSection { .. } => "Dynamic"@,
        ViewNode::NavigateTo { .. } => "NavigateTo"@,
        ViewNode::SetValue { .. } => "Set"@,
        ViewNode::Toggle { .. } => "Toggle"@,
        ViewNode::ListAppend { .. } => "ListAppend"@,
        ViewNode::ListInsert { .. } => "ListInsert"@,
        ViewNode::ListRemove { .. } => "ListRemove"@,
        ViewNode::ListClear { .. } => "ListClear"@,
        ViewNode::LetDecl { mutable, .. } => if mutable {
            "Let"@
        } else {
            "Const"@
        },
        ViewNode::When { .. } => "When"@,
    }
}

/// The name of a node's kind (see `node_kind_name`).
pub fn node_type_name(node: &ViewNode) -> (name: &'static str)
    ensures
        name@ == node_kind_name(*node),
{
    match node {
        ViewNode::Text { .. } => "Text",
        ViewNode::Button { .. } => "Button",
        ViewNode::Image { .. } => "Image",
        ViewNode::TextInput { .. } => "TextInput",
        ViewNode::VStack(_) => "VStack",
        ViewNode::HStack(_) => "HStack",
        ViewNode::Spacing(_) => "Spacing",
        ViewNode::SpacingAuto => "SpacingAuto",
        ViewNode::ForEach { .. } => "ForEach",
        ViewNode::If { .. } => "If",
        ViewNode::Match { .. } => "Match",
        ViewNode::ComponentCall { .. } => "Component",
        ViewNode::Slot { .. } => "Slot",
        ViewNode::SlotCheck { .. } => "SlotCheck",
        ViewNode::Stencil(_) => "Stencil",
        ViewNode::RustCall { .. } => "RustCall",
        ViewNode::DynamicSection { .. } => "Dynamic",
        ViewNode::NavigateTo { .. } => "NavigateTo",
        ViewNode::SetValue { .. } => "Set",
        ViewNode::Toggle { .. } => "Toggle",
        ViewNode::ListAppend { .. } => "ListAppend",
        ViewNode::ListInsert { .. } => "ListInsert",
        ViewNode::ListRemove { .. } => "ListRemove",
        ViewNode::ListClear { .. } => "ListClear",
        ViewNode::LetDecl { mutable, .. } => {
            if *mutable {
                "Let"
            } else {
                "Const"
            }
        },
        ViewNode::When { .. } => "When",
    }
}


// ========================================
// Node signatures
// ========================================

/// What std's `Debug` writes for a string.
pub uninterp spec fn spec_str_debug(s: Seq<char>) -> Seq<char>;

/// Writes a string as std's `Debug` for `str` does (quoted, with special
/// characters escaped). The text depends on the string alone and is named
/// by `spec_str_debug`; nothing more is claimed of it.
#[verifier::external_body]
fn debug_text(s: &str) -> (r: String)
    ensures
        r@ == spec_str_debug(s@),
{
    format!("{:?}", s)
}

/// A tuple variant with one string field as derived `Debug` writes it.
pub open spec fn debug_one_text(name: Seq<char>, a: Seq<char>) -> Seq<char> {
    name + "("@ + spec_str_debug(a) + ")"@
}

/// A tuple variant with two string fields as derived `Debug` writes it.
pub open spec fn debug_two_text(name: Seq<char>, a: Seq<char>, b: Seq<char>) -> Seq<char> {
    name + "("@ + spec_str_debug(a) + ", "@ + spec_str_debug(b) + ")"@
}

/// An event as its derived `Debug` writes it, such as
/// `ButtonPressed("ok")` or `KeyPressed("field", "Enter")`.
pub open spec fn event_debug_text(e: EventExpr) -> Seq<char> {
    match e {
        EventExpr::ButtonPressed(a) => debug_one_text("ButtonPressed"@, a@),
        EventExpr::TextChanged(a) => debug_one_text("TextChanged"@, a@),
        EventExpr::TextFocused(a) => debug_one_text("TextFocused"@, a@),
        EventExpr::TextBlurred(a) => debug_one_text("TextBlurred"@, a@),
        EventExpr::KeyPressed(a, b) => debug_two_text("KeyPressed"@, a@, b@),
        EventExpr::ImeComposition(a, b) => debug_two_text("ImeComposition"@, a@, b@),
        EventExpr::ImeCommit(a, b) => debug_two_text("ImeCommit"@, a@, b@),
    }
}

fn debug_one(name: &str, a: &String) -> (s: String)
    ensures
        s@ == debug_one_text(name@, a@),
{
    let mut s = String::from_str(name);
    s.append("(");
    let d = debug_text(a.as_str());
    s.append(d.as_str());
    s.append(")");
    s
}

fn debug_two(name: &str, a: &String, b: &String) -> (s: String)
    ensures
        s@ == debug_two_text(name@, a@, b@),
{
    let mut s = String::from_str(name);
    s.append("(");
    let d = debug_text(a.as_str());
    s.append(d.as_str());
    s.append(", ");
    let e = debug_text(b.as_str());
    s.append(e.as_str());
    s.append(")");
    s
}

/// The `Debug` text of an event (see `event_debug_text`).
pub fn event_debug(e: &EventExpr) -> (s: String)
    ensures
        s@ == event_debug_text(*e),
{
    match e {
        EventExpr::ButtonPressed(a) => debug_one("ButtonPressed", a),
        EventExpr::TextChanged(a) => debug_one("TextChanged", a),
        EventExpr::TextFocused(a) => debug_one("TextFocused", a),
        EventExpr::TextBlurred(a) => debug_one("TextBlurred", a),
        EventExpr::KeyPressed(a, b) => debug_two("KeyPressed", a, b),
        EventExpr::ImeComposition(a, b) => debug_two("ImeComposition", a, b),
        EventExpr::ImeCommit(a, b) => debug_two("ImeCommit", a, b),
    }
}

/// The expression of a component argument, positional or named.
pub open spec fn arg_expr(a: ComponentArg) -> Expr {
    match a {
        ComponentArg::Positional(e) => e,
        ComponentArg::Named(_, e) => e,
    }
}

/// The expressions whose evaluated text enters a node's signature, in the
/// order in which they are evaluated.
pub open spec fn signature_exprs(node: ViewNode) -> Seq<Expr> {
    match node {
        ViewNode::Text { args, .. } => args@,
        ViewNode::RustCall { args, .. } => args@,
        ViewNode::ComponentCall { args, .. } => args@.map_values(|a: ComponentArg| arg_expr(a)),
        ViewNode::ForEach { iterable, .. } => seq![iterable],
        ViewNode::If { condition, .. } => seq![condition],
        ViewNode::Match { expr, .. } => seq![expr],
        ViewNode::SetValue { value, .. } => seq![value],
        ViewNode::ListAppend { value, .. } => seq![value],
        ViewNode::ListInsert { value, .. } => seq![value],
        ViewNode::ListRemove { value, .. } => seq![value],
        ViewNode::LetDecl { value, .. } => seq![value],
        _ => Seq::empty(),
    }
}

/// The arguments of a component call in a signature: a positional one by
/// its evaluated text, a named one by `name:` and its evaluated text.
pub open spec fn args_text(args: Seq<ComponentArg>, ev: Seq<Seq<char>>) -> Seq<char>
    decreases args.len(),
{
    if args.len() == 0 {
        Seq::empty()
    } else {
        args_text(args.drop_last(), ev) + match args.last() {
            ComponentArg::Positional(_) => ev[args.len() - 1],
            ComponentArg::Named(n, _) => n@ + ":"@ + ev[args.len() - 1],
        }
    }
}

/// The signature of a node: its kind and main attributes, with `ev` the
/// evaluated texts of `signature_exprs(node)`, in order.
pub open spec fn node_signature_text(node: ViewNode, ev: Seq<Seq<char>>) -> Seq<char> {
    match node {
        ViewNode::Text { format, .. } => "Text:"@ + format@ + concat_all(ev),
        ViewNode::Button { id, label, .. } => "Button:"@ + id@ + label@,
        ViewNode::Image { path } => "Image:"@ + path@,
        ViewNode::TextInput { id, placeholder, .. } => "TextInput:"@ + id@ + match placeholder {
            Some(p) => p@,
            None => Seq::empty(),
        },
        ViewNode::VStack(children) => "VStack:"@ + decimal(children@.len()),
        ViewNode::HStack(children) => "HStack:"@ + decimal(children@.len()),
        ViewNode::Spacing(_) => "Spacing"@,
        ViewNode::SpacingAuto => "SpacingAuto"@,
        ViewNode::ForEach { var, body, .. } => "ForEach:"@ + var@ + ev[0] + decimal(body@.len()),
        ViewNode::If { then_body, else_body, .. } => "If:"@ + ev[0] + decimal(then_body@.len()) + ":"@
            + decimal(
            match else_body {
                Some(b) => b@.len(),
                None => 0,
            },
        ),
        ViewNode::ComponentCall { name, args, .. } => "Component:"@ + name@ + args_text(args@, ev),
        ViewNode::Stencil(_) => "Stencil"@,
        ViewNode::RustCall { name, .. } => "RustCall:"@ + name@ + concat_all(ev),
        ViewNode::DynamicSection { name, body } => "Dynamic:"@ + name@ + decimal(body@.len()),
        ViewNode::Match { arms, default, .. } => "Match:"@ + ev[0] + "arms:"@ + decimal(arms@.len())
            + ":default:"@ + if default is Some {
            "true"@
        } else {
            "false"@
        },
        ViewNode::NavigateTo { target } => "NavigateTo:"@ + target@,
        ViewNode::SetValue { path, .. } => "Set:"@ + path@ + ev[0],
        ViewNode::Toggle { path } => "Toggle:"@ + path@,
        ViewNode::ListAppend { path, .. } => "ListAppend:"@ + path@ + ev[0],
        ViewNode::ListInsert { path, index, .. } => "ListInsert:"@ + path@ + ":"@ + decimal(index as nat)
            + ev[0],
        ViewNode::ListRemove { path, .. } => "ListRemove:"@ + path@ + ev[0],
        ViewNode::ListClear { path } => "ListClear:"@ + path@,
        ViewNode::LetDecl { name, mutable, .. } => (if mutable {
            "Let:"@
        } else {
            "Const:"@
        }) + name@ + ev[0],
        ViewNode::When { event, actions } => "When:"@ + event_debug_text(event) + ":"@ + decimal(
            actions@.len(),
        ),
        ViewNode::Slot { name } => "Slot:"@ + name@,
        ViewNode::SlotCheck { name } => "SlotCheck:"@ + name@,
    }
}

/// What is hashed for a node: its signature, followed by `style_text`
/// where the node has a style of its own.
pub open spec fn node_hash_input(node: WithSpan<ViewNode>, ev: Seq<Seq<char>>, style_text: Seq<char>) -> Seq<
    char,
> {
    node_signature_text(node.node, ev) + if node.style is Some {
        style_text
    } else {
        Seq::empty()
    }
}

fn clone_exprs(v: &Vec<Expr>) -> (r: Vec<Expr>)
    ensures
        exprs_view(r@) == exprs_view(v@),
{
    let mut out: Vec<Expr> = Vec::new();
    let mut i: usize = 0;
    while i < v.len()
        invariant
            i <= v.len(),
            exprs_view(out@) == exprs_view(v@.take(i as int)),
        decreases v.len() - i,
    {
        let c = v[i].deep_clone();
        proof {
            assert(out@.push(c).drop_last() == out@);
            assert(v@.take(i + 1).drop_last() == v@.take(i as int));
        }
        out.push(c);
        i = i + 1;
    }
    proof {
        assert(v@.take(v@.len() as int) == v@);
    }
    out
}

fn single_expr(e: &Expr) -> (r: Vec<Expr>)
    ensures
        exprs_view(r@) == exprs_view(seq![*e]),
{
    let c = e.deep_clone();
    let mut out: Vec<Expr> = Vec::new();
    out.push(c);
    proof {
        assert(out@.drop_last() =~= Seq::<Expr>::empty());
        assert(seq![*e].drop_last() =~= Seq::<Expr>::empty());
    }
    out
}

/// Copies of the expressions whose evaluated text enters a node's
/// signature, in order (see `signature_exprs`).
pub fn signature_exprs_of(node: &ViewNode) -> (r: Vec<Expr>)
    ensures
        exprs_view(r@) == exprs_view(signature_exprs(*node)),
{
    match node {
        ViewNode::Text { args, .. } => clone_exprs(args),
        ViewNode::RustCall { args, .. } => clone_exprs(args),
        ViewNode::ComponentCall { args, .. } => {
            let ghost all = args@.map_values(|a: ComponentArg| arg_expr(a));
            let mut out: Vec<Expr> = Vec::new();
            let mut i: usize = 0;
            while i < args.len()
                invariant
                    i <= args.len(),
                    all == args@.map_values(|a: ComponentArg| arg_expr(a)),
                    exprs_view(out@) == exprs_view(all.take(i as int)),
                decreases args.len() - i,
            {
                let c = match &args[i] {
                    ComponentArg::Positional(e) => e.deep_clone(),
                    ComponentArg::Named(_, e) => e.deep_clone(),
                };
                proof {
                    assert(out@.push(c).drop_last() == out@);
                    assert(all.take(i + 1).drop_last() == all.take(i as int));
                    assert(all.take(i + 1).last() == arg_expr(args@[i as int]));
                }
                out.push(c);
                i = i + 1;
            }
            proof {
                assert(all.take(all.len() as int) == all);
            }
            out
        },
        ViewNode::ForEach { iterable, .. } => single_expr(iterable),
        ViewNode::If { condition, .. } => single_expr(condition),
        ViewNode::Match { expr, .. } => single_expr(expr),
        ViewNode::SetValue { value, .. } => single_expr(value),
        ViewNode::ListAppend { value, .. } => single_expr(value),
        ViewNode::ListInsert { value, .. } => single_expr(value),
        ViewNode::ListRemove { value, .. } => single_expr(value),
        ViewNode::LetDecl { value, .. } => single_expr(value),
        _ => {
            let out: Vec<Expr> = Vec::new();
            proof {
                assert(out@ =~= Seq::<Expr>::empty());
            }
            out
        },
    }
}

fn append_concat(out: &mut String, parts: &Vec<String>)
    ensures
        final(out)@ == old(out)@ + concat_all(texts(parts@)),
{
    let ghost ps = texts(parts@);
    let ghost start = out@;
    let mut i: usize = 0;
    while i < parts.len()
        invariant
            i <= parts.len(),
            ps == texts(parts@),
            out@ == start + concat_all(ps.take(i as int)),
        decreases parts.len() - i,
    {
        out.append(parts[i].as_str());
        proof {
            assert(ps.take(i + 1).drop_last() =~= ps.take(i as int));
            assert(start + concat_all(ps.take(i as int)) + ps[i as int] =~= start + concat_all(
                ps.take(i + 1),
            ));
        }
        i = i + 1;
    }
    proof {
        assert(ps.take(parts.len() as int) =~= ps);
    }
}

fn decimal_text(n: usize) -> (s: String)
    ensures
        s@ == decimal(n as nat),
{
    let mut s = String::new();
    push_decimal(&mut s, n);
    proof {
        assert(Seq::<char>::empty() + decimal(n as nat) =~= decimal(n as nat));
    }
    s
}

/// The signature of a node (see `node_signature_text`), given the evaluated
/// texts of its `signature_exprs`, in order.
pub fn node_signature(node: &ViewNode, evaluated: &Vec<String>) -> (s: String)
    requires
        evaluated@.len() == signature_exprs(*node).len(),
    ensures
        s@ == node_signature_text(*node, texts(evaluated@)),
{
    let ghost ev = texts(evaluated@);
    match node {
        ViewNode::Text { format, .. } => {
            let mut s = String::from_str("Text:");
            s.append(format.as_str());
            append_concat(&mut s, evaluated);
            s
        },
        ViewNode::Button { id, label, .. } => {
            let mut s = String::from_str("Button:");
            s.append(id.as_str());
            s.append(label.as_str());
            s
        },
        ViewNode::Image { path } => {
            let mut s = String::from_str("Image:");
            s.append(path.as_str());
            s
        },
        ViewNode::TextInput { id, placeholder, .. } => {
            let mut s = String::from_str("TextInput:");
            s.append(id.as_str());
            match placeholder {
                Some(p) => s.append(p.as_str()),
                None => {
                    proof {
                        assert(s@ + Seq::<char>::empty() =~= s@);
                    }
                },
            }
            s
        },
        ViewNode::VStack(children) => {
            let mut s = String::from_str("VStack:");
            push_decimal(&mut s, children.len());
            s
        },
        ViewNode::HStack(children) => {
            let mut s = String::from_str("HStack:");
            push_decimal(&mut s, children.len());
            s
        },
        ViewNode::Spacing(_) => String::from_str("Spacing"),
        ViewNode::SpacingAuto => String::from_str("SpacingAuto"),
        ViewNode::ForEach { var, body, .. } => {
            let mut s = String::from_str("ForEach:");
            s.append(var.as_str());
            s.append(evaluated[0].as_str());
            push_decimal(&mut s, body.len());
            s
        },
        ViewNode::If { then_body, else_body, .. } => {
            let mut s = String::from_str("If:");
            s.append(evaluated[0].as_str());
            push_decimal(&mut s, then_body.len());
            s.append(":");
            let else_len: usize = match else_body {
                Some(b) => b.len(),
                None => 0,
            };
            push_decimal(&mut s, else_len);
            s
        },
        ViewNode::ComponentCall { name, args, .. } => {
            let mut s = String::from_str("Component:");
            s.append(name.as_str());
            let ghost prefix = s@;
            let mut i: usize = 0;
            while i < args.len()
                invariant
                    i <= args.len(),
                    evaluated@.len() == args@.len(),
                    ev == texts(evaluated@),
                    s@ == prefix + args_text(args@.take(i as int), ev),
                decreases args.len() - i,
            {
                let ghost before = s@;
                match &args[i] {
                    ComponentArg::Positional(_) => {
                        s.append(evaluated[i].as_str());
                    },
                    ComponentArg::Named(n, _) => {
                        s.append(n.as_str());
                        s.append(":");
                        s.append(evaluated[i].as_str());
                    },
                }
                proof {
                    let t = args@.take(i + 1);
                    assert(t.drop_last() =~= args@.take(i as int));
                    assert(t.last() == args@[i as int]);
                    assert(ev[i as int] == evaluated@[i as int]@);
                    assert(s@ =~= prefix + args_text(t, ev));
                }
                i = i + 1;
            }
            proof {
                assert(args@.take(args@.len() as int) =~= args@);
            }
            s
        },
        ViewNode::Stencil(_) => String::from_str("Stencil"),
        ViewNode::RustCall { name, .. } => {
            let mut s = String::from_str("RustCall:");
            s.append(name.as_str());
            append_concat(&mut s, evaluated);
            s
        },
        ViewNode::DynamicSection { name, body } => {
            let mut s = String::from_str("Dynamic:");
            s.append(name.as_str());
            push_decimal(&mut s, body.len());
            s
        },
        ViewNode::Match { arms, default, .. } => {
            let mut s = String::from_str("Match:");
            s.append(evaluated[0].as_str());
            s.append("arms:");
            push_decimal(&mut s, arms.len());
            s.append(":default:");
            if default.is_some() {
                s.append("true");
            } else {
                s.append("false");
            }
            s
        },
        ViewNode::NavigateTo { target } => {
            let mut s = String::from_str("NavigateTo:");
            s.append(target.as_str());
            s
        },
        ViewNode::SetValue { path, .. } => {
            let mut s = String::from_str("Set:");
            s.append(path.as_str());
            s.append(evaluated[0].as_str());
            s
        },
        ViewNode::Toggle { path } => {
            let mut s = String::from_str("Toggle:");
            s.append(path.as_str());
            s
        },
        ViewNode::ListAppend { path, .. } => {
            let mut s = String::from_str("ListAppend:");
            s.append(path.as_str());
            s.append(evaluated[0].as_str());
            s
        },
        ViewNode::ListInsert { path, index, .. } => {
            let mut s = String::from_str("ListInsert:");
            s.append(path.as_str());
            s.append(":");
            push_decimal(&mut s, *index);
            s.append(evaluated[0].as_str());
            s
        },
        ViewNode::ListRemove { path, .. } => {
            let mut s = String::from_str("ListRemove:");
            s.append(path.as_str());
            s.append(evaluated[0].as_str());
            s
        },
        ViewNode::ListClear { path } => {
            let mut s = String::from_str("ListClear:");
            s.append(path.as_str());
            s
        },
        ViewNode::LetDecl { name, mutable, .. } => {
            let mut s = if *mutable {
                String::from_str("Let:")
            } else {
                String::from_str("Const:")
            };
            s.append(name.as_str());
            s.append(evaluated[0].as_str());
            s
        },
        ViewNode::When { event, actions } => {
            let mut s = String::from_str("When:");
            let e = event_debug(event);
            s.append(e.as_str());
            s.append(":");
            push_decimal(&mut s, actions.len());
            s
        },
        ViewNode::Slot { name } => {
            let mut s = String::from_str("Slot:");
            s.append(name.as_str());
            s
        },
        ViewNode::SlotCheck { name } => {
            let mut s = String::from_str("SlotCheck:");
            s.append(name.as_str());
            s
        },
    }
}

/// Nodes whose signatures and style texts read the same get the same
/// fingerprint.
pub proof fn lemma_same_input_same_hash(
    a: WithSpan<ViewNode>,
    ev_a: Seq<Seq<char>>,
    style_a: Seq<char>,
    b: WithSpan<ViewNode>,
    ev_b: Seq<Seq<char>>,
    style_b: Seq<char>,
)
    requires
        node_hash_input(a, ev_a, style_a) == node_hash_input(b, ev_b, style_b),
    ensures
        hex(spec_default_hash(node_hash_input(a, ev_a, style_a)) as nat) == hex(
            spec_default_hash(node_hash_input(b, ev_b, style_b)) as nat,
        ),
{
}

proof fn lemma_cancel_prefix(a: Seq<char>, x: Seq<char>, y: Seq<char>)
    requires
        a + x == a + y,
    ensures
        x == y,
{
    assert(x =~= (a + x).skip(a.len() as int));
    assert(y =~= (a + y).skip(a.len() as int));
}

proof fn lemma_cancel_suffix(x: Seq<char>, y: Seq<char>, b: Seq<char>)
    requires
        x + b == y + b,
    ensures
        x == y,
{
    assert(x =~= (x + b).take(x.len() as int));
    assert(y =~= (y + b).take(y.len() as int));
}

/// Signatures tell apart images with different paths, navigations to
/// different targets, toggles and clears of different paths, and slots and
/// slot checks of different names.
pub proof fn lemma_signature_names(a: String, b: String, ev: Seq<Seq<char>>)
    ensures
        node_signature_text(ViewNode::Image { path: a }, ev) == node_signature_text(ViewNode::Image { path: b }, ev)
            ==> a@ == b@,
        node_signature_text(ViewNode::NavigateTo { target: a }, ev) == node_signature_text(
            ViewNode::NavigateTo { target: b },
            ev,
        ) ==> a@ == b@,
        node_signature_text(ViewNode::Toggle { path: a }, ev) == node_signature_text(ViewNode::Toggle { path: b }, ev)
            ==> a@ == b@,
        node_signature_text(ViewNode::ListClear { path: a }, ev) == node_signature_text(
            ViewNode::ListClear { path: b },
            ev,
        ) ==> a@ == b@,
        node_signature_text(ViewNode::Slot { name: a }, ev) == node_signature_text(ViewNode::Slot { name: b }, ev)
            ==> a@ == b@,
        node_signature_text(ViewNode::SlotCheck { name: a }, ev) == node_signature_text(
            ViewNode::SlotCheck { name: b },
            ev,
        ) ==> a@ == b@,
{
    if node_signature_text(ViewNode::Image { path: a }, ev) == node_signature_text(ViewNode::Image { path: b }, ev) {
        lemma_cancel_prefix("Image:"@, a@, b@);
    }
    if node_signature_text(ViewNode::NavigateTo { target: a }, ev) == node_signature_text(
        ViewNode::NavigateTo { target: b },
        ev,
    ) {
        lemma_cancel_prefix("NavigateTo:"@, a@, b@);
    }
    if node_signature_text(ViewNode::Toggle { path: a }, ev) == node_signature_text(ViewNode::Toggle { path: b }, ev) {
        lemma_cancel_prefix("Toggle:"@, a@, b@);
    }
    if node_signature_text(ViewNode::ListClear { path: a }, ev) == node_signature_text(
        ViewNode::ListClear { path: b },
        ev,
    ) {
        lemma_cancel_prefix("ListClear:"@, a@, b@);
    }
    if node_signature_text(ViewNode::Slot { name: a }, ev) == node_signature_text(ViewNode::Slot { name: b }, ev) {
        lemma_cancel_prefix("Slot:"@, a@, b@);
    }
    if node_signature_text(ViewNode::SlotCheck { name: a }, ev) == node_signature_text(
        ViewNode::SlotCheck { name: b },
        ev,
    ) {
        lemma_cancel_prefix("SlotCheck:"@, a@, b@);
    }
}

/// Signatures tell apart buttons with the same id and different labels,
/// and texts with different formats whose arguments read the same.
pub proof fn lemma_signature_labels(id: String, a: String, b: String, oa: Option<Expr>, ob: Option<Expr>, args_a: Vec<Expr>, args_b: Vec<Expr>, ev: Seq<Seq<char>>)
    ensures
        node_signature_text(ViewNode::Button { id: id, label: a, onclick: oa }, ev) == node_signature_text(
            ViewNode::Button { id: id, label: b, onclick: ob },
            ev,
        ) ==> a@ == b@,
        node_signature_text(ViewNode::Text { format: a, args: args_a }, ev) == node_signature_text(
            ViewNode::Text { format: b, args: args_b },
            ev,
        ) ==> a@ == b@,
{
    if node_signature_text(ViewNode::Button { id: id, label: a, onclick: oa }, ev) == node_signature_text(
        ViewNode::Button { id: id, label: b, onclick: ob },
        ev,
    ) {
        lemma_cancel_prefix("Button:"@ + id@, a@, b@);
    }
    if node_signature_text(ViewNode::Text { format: a, args: args_a }, ev) == node_signature_text(
        ViewNode::Text { format: b, args: args_b },
        ev,
    ) {
        lemma_cancel_suffix("Text:"@ + a@, "Text:"@ + b@, concat_all(ev));
        lemma_cancel_prefix("Text:"@, a@, b@);
    }
}

/// Signatures tell apart stacks with different numbers of children.
pub proof fn lemma_signature_counts(a: Vec<WithSpan<ViewNode>>, b: Vec<WithSpan<ViewNode>>, ev: Seq<Seq<char>>)
    ensures
        node_signature_text(ViewNode::VStack(a), ev) == node_signature_text(ViewNode::VStack(b), ev) ==> a@.len()
            == b@.len(),
        node_signature_text(ViewNode::HStack(a), ev) == node_signature_text(ViewNode::HStack(b), ev) ==> a@.len()
            == b@.len(),
{
    if node_signature_text(ViewNode::VStack(a), ev) == node_signature_text(ViewNode::VStack(b), ev) {
        lemma_cancel_prefix("VStack:"@, decimal(a@.len()), decimal(b@.len()));
        lemma_decimal_injective(a@.len(), b@.len());
    }
    if node_signature_text(ViewNode::HStack(a), ev) == node_signature_text(ViewNode::HStack(b), ev) {
        lemma_cancel_prefix("HStack:"@, decimal(a@.len()), decimal(b@.len()));
        lemma_decimal_injective(a@.len(), b@.len());
    }
}

impl NodeHash {
    /// The fingerprint of a node: the hash of its signature, followed by
    /// `style_text` (the text of its style) where it has a style, given the
    /// evaluated texts of its `signature_exprs`, in order.
    pub fn from_node(node: &WithSpan<ViewNode>, evaluated: &Vec<String>, style_text: &str) -> (h: NodeHash)
        requires
            evaluated@.len() == signature_exprs(node.node).len(),
        ensures
            h@ == hex(spec_default_hash(node_hash_input(*node, texts(evaluated@), style_text@)) as nat),
    {
        let mut sig = node_signature(&node.node, evaluated);
        if node.style.is_some() {
            sig.append(style_text);
        } else {
            proof {
                assert(sig@ + Seq::<char>::empty() =~= sig@);
            }
        }
        NodeHash::from_signature(sig.as_str())
    }
}

// ========================================
// Change tracking between layout passes
// ========================================

/// The value last given to `k` in a list of key-value pairs, if any.
pub open spec fn lookup(m: Seq<(Seq<char>, Seq<char>)>, k: Seq<char>) -> Option<Seq<char>>
    decreases m.len(),
{
    if m.len() == 0 {
        None
    } else if m.last().0 == k {
        Some(m.last().1)
    } else {
        lookup(m.drop_last(), k)
    }
}

/// The keys of `items` whose hash differs from the one `prev` holds for
/// them (or that `prev` does not hold), in order.
pub open spec fn changed_keys(prev: Seq<(Seq<char>, Seq<char>)>, items: Seq<(Seq<char>, Seq<char>)>) -> Seq<
    Seq<char>,
>
    decreases items.len(),
{
    if items.len() == 0 {
        Seq::empty()
    } else {
        let rest = changed_keys(prev, items.drop_last());
        if lookup(prev, items.last().0) == Some(items.last().1) {
            rest
        } else {
            rest.push(items.last().0)
        }
    }
}

/// Whether no key occurs twice in `items`.
pub open spec fn keys_distinct(items: Seq<(Seq<char>, Seq<char>)>) -> bool {
    forall|i: int, j: int| 0 <= i < j < items.len() ==> #[trigger] items[i].0 != #[trigger] items[j].0
}

pub open spec fn pairs_text(v: Seq<(String, String)>) -> Seq<(Seq<char>, Seq<char>)> {
    v.map_values(|p: (String, String)| (p.0@, p.1@))
}

pub open spec fn keyed_hashes(v: Seq<(String, NodeHash)>) -> Seq<(Seq<char>, Seq<char>)> {
    v.map_values(|p: (String, NodeHash)| (p.0@, p.1@))
}

proof fn lemma_lookup_update(m: Seq<(Seq<char>, Seq<char>)>, j: int, v: Seq<char>, k2: Seq<char>)
    requires
        0 <= j < m.len(),
        forall|i: int| j < i < m.len() ==> #[trigger] m[i].0 != m[j].0,
    ensures
        lookup(m.update(j, (m[j].0, v)), k2) == if k2 == m[j].0 {
            Some(v)
        } else {
            lookup(m, k2)
        },
    decreases m.len(),
{
    let u = m.update(j, (m[j].0, v));
    if j == m.len() - 1 {
        assert(u.drop_last() =~= m.drop_last());
    } else {
        assert(u.drop_last() =~= m.drop_last().update(j, (m[j].0, v)));
        assert(m.last() == m[m.len() - 1]);
        lemma_lookup_update(m.drop_last(), j, v, k2);
    }
}

proof fn lemma_lookup_absent(m: Seq<(Seq<char>, Seq<char>)>, k: Seq<char>)
    requires
        forall|i: int| 0 <= i < m.len() ==> #[trigger] m[i].0 != k,
    ensures
        lookup(m, k) is None,
    decreases m.len(),
{
    if m.len() > 0 {
        lemma_lookup_absent(m.drop_last(), k);
    }
}

/// In a list with distinct keys each key looks up its own value.
pub proof fn lemma_lookup_distinct(items: Seq<(Seq<char>, Seq<char>)>, i: int)
    requires
        keys_distinct(items),
        0 <= i < items.len(),
    ensures
        lookup(items, items[i].0) == Some(items[i].1),
    decreases items.len(),
{
    if i < items.len() - 1 {
        assert(items.last() == items[items.len() - 1]);
        let init = items.drop_last();
        assert(keys_distinct(init)) by {
            assert forall|a: int, b: int| 0 <= a < b < init.len() implies #[trigger] init[a].0 != #[trigger] init[b].0 by {
                assert(init[a] == items[a] && init[b] == items[b]);
            }
        }
        lemma_lookup_distinct(init, i);
    }
}

/// A pass over nodes whose hashes the previous pass recorded finds no
/// changed node.
pub proof fn lemma_unchanged_pass(prev: Seq<(Seq<char>, Seq<char>)>, items: Seq<(Seq<char>, Seq<char>)>)
    requires
        forall|i: int| 0 <= i < items.len() ==> lookup(prev, (#[trigger] items[i]).0) == Some(items[i].1),
    ensures
        changed_keys(prev, items).len() == 0,
    decreases items.len(),
{
    if items.len() > 0 {
        assert(items.last() == items[items.len() - 1]);
        lemma_unchanged_pass(prev, items.drop_last());
    }
}

/// Repeating a layout pass over the same nodes, with distinct keys and
/// unchanged hashes, marks no node as changed: after a pass the previous
/// hashes are the ones just recorded.
pub proof fn lemma_repeat_pass_clean(prev: Seq<(Seq<char>, Seq<char>)>, items: Seq<(Seq<char>, Seq<char>)>)
    requires
        keys_distinct(items),
        forall|k: Seq<char>| lookup(items, k) is Some ==> #[trigger] lookup(prev, k) == lookup(items, k),
    ensures
        changed_keys(prev, items).len() == 0,
{
    assert forall|i: int| 0 <= i < items.len() implies lookup(prev, (#[trigger] items[i]).0) == Some(items[i].1) by {
        lemma_lookup_distinct(items, i);
    }
    lemma_unchanged_pass(prev, items);
}

/// On a fresh engine every node of a pass is changed.
pub proof fn lemma_fresh_pass_all_changed(items: Seq<(Seq<char>, Seq<char>)>)
    ensures
        changed_keys(Seq::empty(), items) == items.map_values(|p: (Seq<char>, Seq<char>)| p.0),
    decreases items.len(),
{
    if items.len() > 0 {
        lemma_fresh_pass_all_changed(items.drop_last());
        assert(items.map_values(|p: (Seq<char>, Seq<char>)| p.0) =~= items.drop_last().map_values(
            |p: (Seq<char>, Seq<char>)| p.0,
        ).push(items.last().0));
    } else {
        assert(changed_keys(Seq::empty(), items) =~= items.map_values(|p: (Seq<char>, Seq<char>)| p.0));
    }
}

proof fn lemma_decimal_digits(n: nat)
    ensures
        decimal(n).len() >= 1,
        forall|i: int| 0 <= i < decimal(n).len() ==> #[trigger] decimal(n)[i] != '_',
    decreases n,
{
    if n >= 10 {
        lemma_decimal_digits(n / 10);
        let d = decimal(n / 10);
        assert forall|i: int| 0 <= i < decimal(n).len() implies #[trigger] decimal(n)[i] != '_' by {
            if i < d.len() {
                assert(decimal(n)[i] == d[i]);
            }
        }
    }
}

proof fn lemma_decimal_injective(a: nat, b: nat)
    requires
        decimal(a) == decimal(b),
    ensures
        a == b,
    decreases a,
{
    lemma_decimal_digits(a);
    lemma_decimal_digits(b);
    if a >= 10 && b >= 10 {
        assert(decimal(a).drop_last() =~= decimal(a / 10));
        assert(decimal(b).drop_last() =~= decimal(b / 10));
        lemma_decimal_injective(a / 10, b / 10);
        assert(decimal(a).last() == digit_char(a % 10));
        assert(decimal(b).last() == digit_char(b % 10));
    } else if a < 10 && b < 10 {
        assert(decimal(a)[0] == digit_char(a));
        assert(decimal(b)[0] == digit_char(b));
    } else if a < 10 {
        lemma_decimal_digits(b / 10);
        assert(decimal(b).len() >= 2);
    } else {
        lemma_decimal_digits(a / 10);
        assert(decimal(a).len() >= 2);
    }
}

/// Children at different positions get different segments, whatever their
/// kinds.
pub proof fn lemma_segment_index_injective(t1: Seq<char>, i1: nat, t2: Seq<char>, i2: nat)
    requires
        i1 != i2,
    ensures
        segment(t1, i1) != segment(t2, i2),
{
    reveal_strlit("_");
    lemma_decimal_digits(i1);
    lemma_decimal_digits(i2);
    let d1 = decimal(i1);
    let d2 = decimal(i2);
    let s1 = segment(t1, i1);
    let s2 = segment(t2, i2);
    if s1 == s2 {
        assert(s1 =~= t1 + seq!['_'] + d1);
        assert(s2 =~= t2 + seq!['_'] + d2);
        if d1.len() < d2.len() {
            let p = s1.len() - 1 - d1.len();
            assert(s1[p] == '_');
            assert(s2[p] == d2[p - t2.len() - 1]);
        } else if d2.len() < d1.len() {
            let p = s2.len() - 1 - d2.len();
            assert(s2[p] == '_');
            assert(s1[p] == d1[p - t1.len() - 1]);
        } else {
            assert(d1 =~= s1.subrange(s1.len() - d1.len(), s1.len() as int));
            assert(d2 =~= s2.subrange(s2.len() - d2.len(), s2.len() as int));
            lemma_decimal_injective(i1, i2);
        }
    }
}

/// The key of the `i`-th top-level node in a pass: its kind and position.
pub open spec fn top_level_key(nodes: Seq<WithSpan<ViewNode>>, i: int) -> Seq<char> {
    segment(node_kind_name(nodes[i].node), i as nat)
}

/// The keyed hashes of the top-level nodes of a pass: each node keyed by
/// its kind and position (as `NodeId::new().child(i, kind).key()` gives
/// it), with its hash. The keys are distinct.
pub fn pass_items(nodes: &Vec<WithSpan<ViewNode>>, hashes: Vec<NodeHash>) -> (r: Vec<(String, NodeHash)>)
    requires
        hashes@.len() == nodes@.len(),
    ensures
        r@.len() == nodes@.len(),
        forall|i: int| 0 <= i < r@.len() ==> (#[trigger] r@[i]).0@ == top_level_key(nodes@, i) && r@[i].1@
            == hashes@[i]@,
        keys_distinct(keyed_hashes(r@)),
{
    let mut r: Vec<(String, NodeHash)> = Vec::new();
    let ghost hs = hashes@;
    for h in it: hashes.into_iter()
        invariant
            it.seq() == hs,
            hs.len() == nodes@.len(),
            r@.len() == it.index(),
            forall|i: int| 0 <= i < r@.len() ==> (#[trigger] r@[i]).0@ == top_level_key(nodes@, i)
                && r@[i].1@ == hs[i]@,
    {
        let i = r.len();
        let mut key = String::from_str(node_type_name(&nodes[i].node));
        key.append("_");
        push_decimal(&mut key, i);
        r.push((key, h));
    }
    proof {
        let k = keyed_hashes(r@);
        assert forall|a: int, b: int| 0 <= a < b < k.len() implies #[trigger] k[a].0 != #[trigger] k[b].0 by {
            lemma_segment_index_injective(
                node_kind_name(nodes@[a].node),
                a as nat,
                node_kind_name(nodes@[b].node),
                b as nat,
            );
        }
    }
    r
}

/// Which nodes need layout again: the node hashes of the previous pass and
/// of the current one, by node key, and the keys found changed in the
/// latest pass.
pub struct LayoutDiffEngine {
    prev: Vec<(String, String)>,
    current: Vec<(String, String)>,
    dirty: Vec<String>,
}

impl LayoutDiffEngine {
    /// The hashes of the previous pass.
    pub closed spec fn prev_hashes(&self) -> Seq<(Seq<char>, Seq<char>)> {
        pairs_text(self.prev@)
    }

    /// The hashes recorded so far, the current pass's last.
    pub closed spec fn current_hashes(&self) -> Seq<(Seq<char>, Seq<char>)> {
        pairs_text(self.current@)
    }

    /// The keys found changed in the latest pass, in order.
    pub closed spec fn dirty_keys(&self) -> Seq<Seq<char>> {
        texts(self.dirty@)
    }

    /// An engine with no recorded hash.
    pub fn new() -> (e: LayoutDiffEngine)
        ensures
            e.prev_hashes() == Seq::<(Seq<char>, Seq<char>)>::empty(),
            e.current_hashes() == Seq::<(Seq<char>, Seq<char>)>::empty(),
            e.dirty_keys() == Seq::<Seq<char>>::empty(),
    {
        let e = LayoutDiffEngine { prev: Vec::new(), current: Vec::new(), dirty: Vec::new() };
        proof {
            assert(e.prev_hashes() =~= Seq::<(Seq<char>, Seq<char>)>::empty());
            assert(e.current_hashes() =~= Seq::<(Seq<char>, Seq<char>)>::empty());
            assert(e.dirty_keys() =~= Seq::<Seq<char>>::empty());
        }
        e
    }

    fn find_current(&self, key: &str) -> (r: Option<usize>)
        ensures
            match r {
                Some(j) => j < self.current@.len() && self.current_hashes()[j as int].0 == key@
                    && forall|i: int| j < i < self.current@.len() ==> #[trigger] self.current_hashes()[i].0 != key@,
                None => forall|i: int| 0 <= i < self.current@.len() ==> #[trigger] self.current_hashes()[i].0 != key@,
            },
    {
        let mut j = self.current.len();
        while j > 0
            invariant
                j <= self.current@.len(),
                forall|i: int| j <= i < self.current@.len() ==> #[trigger] self.current_hashes()[i].0 != key@,
            decreases j,
        {
            if str_eq(self.current[j - 1].0.as_str(), key) {
                return Some(j - 1);
            }
            j = j - 1;
        }
        None
    }

    fn prev_lookup(&self, key: &str) -> (r: Option<&String>)
        ensures
            match r {
                Some(h) => lookup(self.prev_hashes(), key@) == Some(h@),
                None => lookup(self.prev_hashes(), key@) is None,
            },
    {
        let ghost m = self.prev_hashes();
        let mut j = self.prev.len();
        proof {
            assert(m.take(m.len() as int) =~= m);
        }
        while j > 0
            invariant
                j <= self.prev@.len(),
                m == self.prev_hashes(),
                lookup(m, key@) == lookup(m.take(j as int), key@),
            decreases j,
        {
            proof {
                assert(m.take(j as int).drop_last() =~= m.take(j - 1));
            }
            if str_eq(self.prev[j - 1].0.as_str(), key) {
                return Some(&self.prev[j - 1].1);
            }
            j = j - 1;
        }
        None
    }

    /// Records the hash of the node `key` in the current pass and says
    /// whether it changed: whether the previous pass held another hash for
    /// it, or none. A changed key is added to the changed keys.
    pub fn record(&mut self, key: &str, hash: &NodeHash) -> (changed: bool)
        ensures
            changed == (lookup(old(self).prev_hashes(), key@) != Some(hash@)),
            final(self).dirty_keys() == if changed {
                old(self).dirty_keys().push(key@)
            } else {
                old(self).dirty_keys()
            },
            forall|k: Seq<char>| #[trigger] lookup(final(self).current_hashes(), k) == if k == key@ {
                Some(hash@)
            } else {
                lookup(old(self).current_hashes(), k)
            },
            final(self).prev_hashes() == old(self).prev_hashes(),
    {
        let h = String::from_str(hash.as_str());
        let changed = match self.prev_lookup(key) {
            Some(p) => !str_eq(p.as_str(), h.as_str()),
            None => true,
        };
        if changed {
            self.dirty.push(String::from_str(key));
            proof {
                assert(self.dirty_keys() =~= old(self).dirty_keys().push(key@));
            }
        }
        let ghost before = self.current_hashes();
        match self.find_current(key) {
            Some(j) => {
                self.current[j] = (String::from_str(key), h);
                proof {
                    assert(self.current_hashes() =~= before.update(j as int, (before[j as int].0, hash@)));
                    assert forall|k: Seq<char>| #[trigger] lookup(self.current_hashes(), k) == if k == key@ {
                        Some(hash@)
                    } else {
                        lookup(before, k)
                    } by {
                        lemma_lookup_update(before, j as int, hash@, k);
                    }
                }
            },
            None => {
                self.current.push((String::from_str(key), h));
                proof {
                    assert(self.current_hashes() =~= before.push((key@, hash@)));
                    assert(self.current_hashes().drop_last() =~= before);
                }
            },
        }
        changed
    }

    /// A layout pass over nodes given by key and hash, in order: the changed
    /// keys start afresh, every node is recorded (see `record`), and the
    /// hashes recorded become the previous pass's.
    pub fn compute_diff(&mut self, items: &Vec<(String, NodeHash)>)
        ensures
            final(self).dirty_keys() == changed_keys(old(self).prev_hashes(), keyed_hashes(items@)),
            forall|k: Seq<char>| #[trigger] lookup(final(self).current_hashes(), k) == if lookup(
                keyed_hashes(items@),
                k,
            ) is Some {
                lookup(keyed_hashes(items@), k)
            } else {
                lookup(old(self).current_hashes(), k)
            },
            final(self).prev_hashes() == final(self).current_hashes(),
            keys_distinct(keyed_hashes(items@)) ==> forall|i: int|
                0 <= i < items@.len() ==> lookup(final(self).prev_hashes(), (#[trigger] items@[i]).0@) == Some(
                    items@[i].1@,
                ),
    {
        let ghost its = keyed_hashes(items@);
        let ghost prev0 = self.prev_hashes();
        let ghost cur0 = self.current_hashes();
        self.dirty = Vec::new();
        proof {
            assert(self.dirty_keys() =~= Seq::<Seq<char>>::empty());
            assert(its.take(0) =~= Seq::<(Seq<char>, Seq<char>)>::empty());
        }
        let mut i: usize = 0;
        while i < items.len()
            invariant
                i <= items.len(),
                its == keyed_hashes(items@),
                self.prev_hashes() == prev0,
                self.dirty_keys() == changed_keys(prev0, its.take(i as int)),
                forall|k: Seq<char>| #[trigger] lookup(self.current_hashes(), k) == if lookup(
                    its.take(i as int),
                    k,
                ) is Some {
                    lookup(its.take(i as int), k)
                } else {
                    lookup(cur0, k)
                },
            decreases items.len() - i,
        {
            let ghost t = its.take(i + 1);
            proof {
                assert(t.drop_last() =~= its.take(i as int));
                assert(t.last() == (items@[i as int].0@, items@[i as int].1@));
            }
            self.record(items[i].0.as_str(), &items[i].1);
            i = i + 1;
        }
        proof {
            assert(its.take(items.len() as int) =~= its);
        }
        let mut copy: Vec<(String, String)> = Vec::new();
        let mut j: usize = 0;
        while j < self.current.len()
            invariant
                j <= self.current@.len(),
                pairs_text(copy@) == self.current_hashes().take(j as int),
            decreases self.current@.len() - j,
        {
            let c = (self.current[j].0.clone(), self.current[j].1.clone());
            let ghost before = copy@;
            copy.push(c);
            proof {
                assert(c.0@ == self.current@[j as int].0@ && c.1@ == self.current@[j as int].1@);
                assert(pairs_text(before).len() == before.len());
                assert(before.len() == j);
                assert(copy@ == before.push(c));
                assert forall|t: int| 0 <= t <= j implies #[trigger] pairs_text(copy@)[t] == self.current_hashes().take(
                    j + 1,
                )[t] by {
                    if t < j {
                        assert(copy@[t] == before[t]);
                        assert(pairs_text(before)[t] == self.current_hashes().take(j as int)[t]);
                    }
                }
                assert(pairs_text(copy@) =~= self.current_hashes().take(j + 1));
            }
            j = j + 1;
        }
        proof {
            assert(self.current_hashes().take(self.current@.len() as int) =~= self.current_hashes());
        }
        self.prev = copy;
        proof {
            if keys_distinct(its) {
                assert forall|i: int| 0 <= i < items@.len() implies lookup(
                    self.prev_hashes(),
                    (#[trigger] items@[i]).0@,
                ) == Some(items@[i].1@) by {
                    assert(its[i] == (items@[i].0@, items@[i].1@));
                    lemma_lookup_distinct(its, i);
                }
            }
        }
    }

    /// How many nodes the latest pass found changed.
    pub fn dirty_count(&self) -> (n: usize)
        ensures
            n == self.dirty_keys().len(),
    {
        self.dirty.len()
    }

    /// Forgets every recorded hash and changed key.
    pub fn clear_cache(&mut self)
        ensures
            final(self).prev_hashes() == Seq::<(Seq<char>, Seq<char>)>::empty(),
            final(self).current_hashes() == Seq::<(Seq<char>, Seq<char>)>::empty(),
            final(self).dirty_keys() == Seq::<Seq<char>>::empty(),
    {
        self.prev = Vec::new();
        self.current = Vec::new();
        self.dirty = Vec::new();
        proof {
            assert(self.prev_hashes() =~= Seq::<(Seq<char>, Seq<char>)>::empty());
            assert(self.current_hashes() =~= Seq::<(Seq<char>, Seq<char>)>::empty());
            assert(self.dirty_keys() =~= Seq::<Seq<char>>::empty());
        }
    }
}

} // verus!
