use vstd::prelude::*;
use vstd::string::StringExecFns;

use crate::parser::style::Style;
use crate::stencil::stencil::Stencil;

verus! {

broadcast use vstd::std_specs::vec::group_vec_axioms;

// ========================================
// Programs
// ========================================

/// A parsed `.nilo` program: its screen flow, its timelines (screens) and
/// its reusable components.
pub struct App {
    pub flow: Flow,
    pub timelines: Vec<Timeline>,
    pub components: Vec<Component>,
}

impl Default for App {
    /// An app whose flow starts at the timeline `Default` and has nothing
    /// else.
    fn default() -> (app: App)
        ensures
            app.flow.start@ == "Default"@,
            app.flow.start_url is None,
            app.flow.transitions@.len() == 0,
            app.timelines@.len() == 0,
            app.components@.len() == 0,
    {
        App {
            flow: Flow { start: String::from_str("Default"), start_url: None, transitions: Vec::new() },
            timelines: Vec::new(),
            components: Vec::new(),
        }
    }
}

/// The screen flow: the first timeline and the transitions between timelines.
pub struct Flow {
    pub start: String,
    /// The URL of the first timeline, where one was given.
    pub start_url: Option<String>,
    pub transitions: Vec<FlowTransition>,
}

/// A transition from any of `from` to the targets `to`.
pub struct FlowTransition {
    pub from: Vec<String>,
    pub to: Vec<FlowTarget>,
}

/// The target of a transition: a timeline, with an optional URL and URL
/// parameters in the order they were given. In a well-formed flow each
/// parameter name occurs once (see `flow::params_distinct`).
pub struct FlowTarget {
    pub timeline: String,
    pub url: Option<String>,
    pub params: Vec<(String, UrlParam)>,
}

#[derive(Debug, PartialEq, Eq)]
pub enum UrlParam {
    /// `:name`
    Required(String),
    /// `:name?`
    Optional(String),
    /// `*`
    Wildcard,
}

/// A flow written inside a namespace (`flow Login { ... }`), before its
/// names are qualified.
pub struct NamespacedFlow {
    pub name: String,
    pub start: String,
    pub transitions: Vec<NamespacedTransition>,
}

pub struct NamespacedTransition {
    pub from: Vec<String>,
    pub to: Vec<String>,
}

/// A namespace (`namespace Login { ... }`) grouping timelines and components.
pub struct Namespace {
    pub name: String,
    pub timelines: Vec<Timeline>,
    pub components: Vec<Component>,
}

/// A screen: its name, optional URL pattern, font and background, the nodes
/// it shows and the event handlers it installs.
pub struct Timeline {
    pub name: String,
    pub url_pattern: Option<String>,
    pub font: Option<String>,
    pub background: Option<String>,
    pub body: Vec<WithSpan<ViewNode>>,
    pub whens: Vec<When>,
}

/// A reusable component with typed parameters.
pub struct Component {
    pub name: String,
    pub params: Vec<ComponentParam>,
    pub font: Option<String>,
    pub default_style: Option<Style>,
    pub body: Vec<WithSpan<ViewNode>>,
    pub whens: Vec<When>,
}

pub struct ComponentParam {
    pub name: String,
    pub param_type: ComponentParamType,
    pub default_value: Option<Expr>,
    pub optional: bool,
}

/// The declared type of a component parameter.
#[derive(Debug, PartialEq, Eq)]
pub enum ComponentParamType {
    String,
    Number,
    Bool,
    Object,
    Array,
    Function,
    /// One of the listed strings, such as `("small" | "medium" | "large")`.
    Enum(Vec<String>),
    Any,
}

/// An argument of a component call: by position or by name.
pub enum ComponentArg {
    Positional(Expr),
    Named(String, Expr),
}

/// An event handler: the actions to run when `event` happens.
pub struct When {
    pub event: EventExpr,
    pub actions: Vec<WithSpan<ViewNode>>,
}

#[derive(Debug, PartialEq, Eq)]
pub enum EventExpr {
    ButtonPressed(String),
    TextChanged(String),
    TextFocused(String),
    TextBlurred(String),
    /// (field id, key name)
    KeyPressed(String, String),
    /// (field id, text being composed)
    ImeComposition(String, String),
    /// (field id, committed text)
    ImeCommit(String, String),
}

/// A node with the source position it was written at and its own style.
pub struct WithSpan<T> {
    pub node: T,
    pub line: usize,
    pub column: usize,
    pub style: Option<Style>,
}

/// A node of a view: an element, a layout container, a control structure or
/// an action.
pub enum ViewNode {
    Text { format: String, args: Vec<Expr> },
    Button { id: String, label: String, onclick: Option<Expr> },
    Image { path: String },
    TextInput {
        id: String,
        placeholder: Option<String>,
        value: Option<Expr>,
        on_change: Option<Expr>,
        multiline: bool,
        max_length: Option<usize>,
        ime_enabled: bool,
    },
    VStack(Vec<WithSpan<ViewNode>>),
    HStack(Vec<WithSpan<ViewNode>>),
    Spacing(DimensionValue),
    SpacingAuto,
    ComponentCall {
        name: String,
        args: Vec<ComponentArg>,
        /// Slot contents by slot name, each name once.
        slots: Vec<(String, Vec<WithSpan<ViewNode>>)>,
    },
    Slot { name: String },
    SlotCheck { name: String },
    DynamicSection { name: String, body: Vec<WithSpan<ViewNode>> },
    Match {
        expr: Expr,
        arms: Vec<(Expr, Vec<WithSpan<ViewNode>>)>,
        default: Option<Vec<WithSpan<ViewNode>>>,
    },
    ForEach { var: String, iterable: Expr, body: Vec<WithSpan<ViewNode>> },
    If {
        condition: Expr,
        then_body: Vec<WithSpan<ViewNode>>,
        else_body: Option<Vec<WithSpan<ViewNode>>>,
    },
    NavigateTo { target: String },
    RustCall { name: String, args: Vec<Expr> },
    /// `set path = value` (written `Set` in the language).
    SetValue { path: String, value: Expr, inferred_type: Option<NiloType> },
    Toggle { path: String },
    ListAppend { path: String, value: Expr },
    ListInsert { path: String, index: usize, value: Expr },
    ListRemove { path: String, value: Expr },
    ListClear { path: String },
    LetDecl { name: String, value: Expr, mutable: bool, declared_type: Option<NiloType> },
    When { event: EventExpr, actions: Vec<WithSpan<ViewNode>> },
    Stencil(Stencil),
}

// ========================================
// Expressions
// ========================================

/// An expression. Numbers are IEEE-754 single-precision bit patterns.
pub enum Expr {
    String(String),
    Number(u32),
    Bool(bool),
    Ident(String),
    Path(String),
    Array(Vec<Expr>),
    Object(Vec<(String, Expr)>),
    Dimension(DimensionValue),
    /// A parenthesised arithmetic expression such as `(100% - 10px)`.
    CalcExpr(Box<Expr>),
    Match { expr: Box<Expr>, arms: Vec<MatchArm>, default: Option<Box<Expr>> },
    FunctionCall { name: String, args: Vec<Expr> },
    BinaryOp { left: Box<Expr>, op: BinaryOperator, right: Box<Expr> },
}

#[derive(Debug, Clone, Copy, PartialEq, Eq)]
pub enum BinaryOperator {
    Add,
    Sub,
    Mul,
    Div,
    Eq,
    Ne,
    Lt,
    Le,
    Gt,
    Ge,
}

pub struct MatchArm {
    pub pattern: Expr,
    pub value: Expr,
}

/// A number with a unit; the number is a bit pattern.
#[derive(Debug, Clone, Copy, PartialEq, Eq)]
pub struct DimensionValue {
    pub value: u32,
    pub unit: Unit,
}

#[derive(Debug, Clone, Copy, PartialEq, Eq)]
pub enum Unit {
    Px,
    /// Hundredths of the viewport width.
    Vw,
    /// Hundredths of the viewport height.
    Vh,
    /// Hundredths of the window width.
    Ww,
    /// Hundredths of the window height.
    Wh,
    /// Hundredths of the parent's width.
    Percent,
    /// Hundredths of the parent's height.
    PercentHeight,
    Rem,
    Em,
    /// The parent's size.
    Auto,
}

impl DimensionValue {
    /// A value in pixels.
    pub fn px(value: u32) -> (d: DimensionValue)
        ensures
            d == (DimensionValue { value: value, unit: Unit::Px }),
    {
        DimensionValue { value, unit: Unit::Px }
    }
}

/// The value of an expression, with nested lists taken by value.
pub enum ExprView {
    String(String),
    Number(u32),
    Bool(bool),
    Ident(String),
    Path(String),
    Array(Seq<ExprView>),
    Object(Seq<(String, ExprView)>),
    Dimension(DimensionValue),
    CalcExpr(Box<ExprView>),
    Match { expr: Box<ExprView>, arms: Seq<(ExprView, ExprView)>, default: Option<Box<ExprView>> },
    FunctionCall { name: String, args: Seq<ExprView> },
    BinaryOp { left: Box<ExprView>, op: BinaryOperator, right: Box<ExprView> },
}

pub open spec fn expr_view(e: Expr) -> ExprView
    decreases e,
{
    match e {
        Expr::String(s) => ExprView::String(s),
        Expr::Number(n) => ExprView::Number(n),
        Expr::Bool(b) => ExprView::Bool(b),
        Expr::Ident(s) => ExprView::Ident(s),
        Expr::Path(s) => ExprView::Path(s),
        Expr::Array(v) => ExprView::Array(exprs_view(v@)),
        Expr::Object(v) => ExprView::Object(pairs_view(v@)),
        Expr::Dimension(d) => ExprView::Dimension(d),
        Expr::CalcExpr(inner) => ExprView::CalcExpr(Box::new(expr_view(*inner))),
        Expr::Match { expr, arms, default } => ExprView::Match {
            expr: Box::new(expr_view(*expr)),
            arms: arms_view(arms@),
            default: match default {
                Some(d) => Some(Box::new(expr_view(*d))),
                None => None,
            },
        },
        Expr::FunctionCall { name, args } => ExprView::FunctionCall { name, args: exprs_view(args@) },
        Expr::BinaryOp { left, op, right } => ExprView::BinaryOp {
            left: Box::new(expr_view(*left)),
            op: op,
            right: Box::new(expr_view(*right)),
        },
    }
}

pub open spec fn exprs_view(s: Seq<Expr>) -> Seq<ExprView>
    decreases s,
{
    if s.len() == 0 {
        Seq::empty()
    } else {
        exprs_view(s.drop_last()).push(expr_view(s.last()))
    }
}

pub open spec fn pairs_view(s: Seq<(String, Expr)>) -> Seq<(String, ExprView)>
    decreases s,
{
    if s.len() == 0 {
        Seq::empty()
    } else {
        pairs_view(s.drop_last()).push((s.last().0, expr_view(s.last().1)))
    }
}

pub open spec fn arms_view(s: Seq<MatchArm>) -> Seq<(ExprView, ExprView)>
    decreases s,
{
    if s.len() == 0 {
        Seq::empty()
    } else {
        arms_view(s.drop_last()).push((expr_view(s.last().pattern), expr_view(s.last().value)))
    }
}

impl Expr {
    /// A copy with the same value.
    #[verifier::loop_isolation(false)]
    pub fn deep_clone(&self) -> (r: Expr)
        ensures
            expr_view(r) == expr_view(*self),
        decreases self,
    {
        match self {
            Expr::String(s) => Expr::String(s.clone()),
            Expr::Number(n) => Expr::Number(*n),
            Expr::Bool(b) => Expr::Bool(*b),
            Expr::Ident(s) => Expr::Ident(s.clone()),
            Expr::Path(s) => Expr::Path(s.clone()),
            Expr::Dimension(d) => Expr::Dimension(*d),
            Expr::CalcExpr(inner) => Expr::CalcExpr(Box::new(inner.deep_clone())),
            Expr::BinaryOp { left, op, right } => Expr::BinaryOp {
                left: Box::new(left.deep_clone()),
                op: *op,
                right: Box::new(right.deep_clone()),
            },
            Expr::Array(v) => {
                let mut out: Vec<Expr> = Vec::new();
                let mut i: usize = 0;
                while i < v.len()
                    invariant
                        i <= v.len(),
                        exprs_view(out@) == exprs_view(v@.take(i as int)),
                    decreases v.len() - i,
                {
                    proof {
                        assert(decreases_to!(*self => v@[i as int]));
                    }
                    let c = v[i].deep_clone();
                    proof {
                        assert(out@.push(c).drop_last() == out@);
                        assert(v@.take(i + 1).drop_last() == v@.take(i as int));
                    }
                    out.push(c);
                    i = i + 1;
                }
                proof {
                    assert(v@.take(v@.len() as int) == v@);
                }
                Expr::Array(out)
            },
            Expr::FunctionCall { name, args } => {
                let mut out: Vec<Expr> = Vec::new();
                let mut i: usize = 0;
                while i < args.len()
                    invariant
                        i <= args.len(),
                        exprs_view(out@) == exprs_view(args@.take(i as int)),
                    decreases args.len() - i,
                {
                    proof {
                        assert(decreases_to!(*self => args@[i as int]));
                    }
                    let c = args[i].deep_clone();
                    proof {
                        assert(out@.push(c).drop_last() == out@);
                        assert(args@.take(i + 1).drop_last() == args@.take(i as int));
                    }
                    out.push(c);
                    i = i + 1;
                }
                proof {
                    assert(args@.take(args@.len() as int) == args@);
                }
                Expr::FunctionCall { name: name.clone(), args: out }
            },
            Expr::Object(v) => {
                let mut out: Vec<(String, Expr)> = Vec::new();
                let mut i: usize = 0;
                while i < v.len()
                    invariant
                        i <= v.len(),
                        pairs_view(out@) == pairs_view(v@.take(i as int)),
                    decreases v.len() - i,
                {
                    proof {
                        assert(decreases_to!(*self => v@[i as int].1));
                    }
                    let c = (v[i].0.clone(), v[i].1.deep_clone());
                    proof {
                        assert(out@.push(c).drop_last() == out@);
                        assert(v@.take(i + 1).drop_last() == v@.take(i as int));
                    }
                    out.push(c);
                    i = i + 1;
                }
                proof {
                    assert(v@.take(v@.len() as int) == v@);
                }
                Expr::Object(out)
            },
            Expr::Match { expr, arms, default } => {
                let e = expr.deep_clone();
                let mut out: Vec<MatchArm> = Vec::new();
                let mut i: usize = 0;
                while i < arms.len()
                    invariant
                        i <= arms.len(),
                        arms_view(out@) == arms_view(arms@.take(i as int)),
                    decreases arms.len() - i,
                {
                    proof {
                        assert(decreases_to!(*self => arms@[i as int].pattern));
                        assert(decreases_to!(*self => arms@[i as int].value));
                    }
                    let c = MatchArm {
                        pattern: arms[i].pattern.deep_clone(),
                        value: arms[i].value.deep_clone(),
                    };
                    proof {
                        assert(out@.push(c).drop_last() == out@);
                        assert(arms@.take(i + 1).drop_last() == arms@.take(i as int));
                    }
                    out.push(c);
                    i = i + 1;
                }
                proof {
                    assert(arms@.take(arms@.len() as int) == arms@);
                }
                let d = match default {
                    Some(d) => Some(Box::new(d.deep_clone())),
                    None => None,
                };
                Expr::Match { expr: Box::new(e), arms: out, default: d }
            },
        }
    }
}

// ========================================
// Types
// ========================================

/// The types of nilo's weak type system.
#[derive(Debug, PartialEq, Eq)]
pub enum NiloType {
    Number,
    String,
    Bool,
    Array(Box<NiloType>),
    /// Compatible with every type; checking is skipped.
    Any,
    /// Not inferred yet; compatible with every type.
    Unknown,
}

/// The name of a type: `number`, `string`, `bool`, `any`, `unknown`, or an
/// element type followed by `[]`.
pub open spec fn nilo_type_text(t: NiloType) -> Seq<char>
    decreases t,
{
    match t {
        NiloType::Number => "number"@,
        NiloType::String => "string"@,
        NiloType::Bool => "bool"@,
        NiloType::Array(inner) => nilo_type_text(*inner) + "[]"@,
        NiloType::Any => "any"@,
        NiloType::Unknown => "unknown"@,
    }
}

/// Weak compatibility: `Any` and `Unknown` are compatible with every type,
/// arrays are compatible when their elements are, and otherwise a type is
/// compatible only with itself.
pub open spec fn compatible(a: NiloType, b: NiloType) -> bool
    decreases a,
{
    match (a, b) {
        (NiloType::Any, _) => true,
        (_, NiloType::Any) => true,
        (NiloType::Unknown, _) => true,
        (_, NiloType::Unknown) => true,
        (NiloType::Array(x), NiloType::Array(y)) => compatible(*x, *y),
        _ => a == b,
    }
}

impl NiloType {
    /// The name of the type (see `nilo_type_text`).
    pub fn display(&self) -> (s: String)
        ensures
            s@ == nilo_type_text(*self),
        decreases self,
    {
        match self {
            NiloType::Number => String::from_str("number"),
            NiloType::String => String::from_str("string"),
            NiloType::Bool => String::from_str("bool"),
            NiloType::Array(inner) => {
                let mut s = inner.display();
                s.append("[]");
                s
            },
            NiloType::Any => String::from_str("any"),
            NiloType::Unknown => String::from_str("unknown"),
        }
    }

    /// Whether a value of type `other` may stand where `self` is expected
    /// (see `compatible`).
    pub fn is_compatible_with(&self, other: &NiloType) -> (b: bool)
        ensures
            b == compatible(*self, *other),
        decreases self,
    {
        match (self, other) {
            (NiloType::Any, _) => true,
            (_, NiloType::Any) => true,
            (NiloType::Unknown, _) => true,
            (_, NiloType::Unknown) => true,
            (NiloType::Array(a), NiloType::Array(b)) => a.is_compatible_with(b),
            (NiloType::Number, NiloType::Number) => true,
            (NiloType::String, NiloType::String) => true,
            (NiloType::Bool, NiloType::Bool) => true,
            _ => false,
        }
    }
}

/// Every type is compatible with itself.
pub proof fn lemma_compatible_reflexive(t: NiloType)
    ensures
        compatible(t, t),
    decreases t,
{
    if let NiloType::Array(x) = t {
        lemma_compatible_reflexive(*x);
    }
}

/// Compatibility does not depend on which side is expected.
pub proof fn lemma_compatible_symmetric(a: NiloType, b: NiloType)
    ensures
        compatible(a, b) == compatible(b, a),
    decreases a,
{
    if let (NiloType::Array(x), NiloType::Array(y)) = (a, b) {
        lemma_compatible_symmetric(*x, *y);
    }
}

/// An expression with the type the parser inferred for it.
pub struct TypedExpr {
    pub expr: Expr,
    pub inferred_type: NiloType,
}

impl TypedExpr {
    pub fn new(expr: Expr, inferred_type: NiloType) -> (t: TypedExpr)
        ensures
            t == (TypedExpr { expr: expr, inferred_type: inferred_type }),
    {
        TypedExpr { expr, inferred_type }
    }

    /// The expression without its type.
    pub fn into_expr(self) -> (e: Expr)
        ensures
            e == self.expr,
    {
        self.expr
    }
}

} // verus!
