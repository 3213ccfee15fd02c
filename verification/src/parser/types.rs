//! Type inference and type checking for expressions.
use vstd::prelude::*;
use vstd::string::StringExecFns;

use crate::parser::ast::{compatible, nilo_type_text, BinaryOperator, DimensionValue, Expr, NiloType, TypedExpr};
use crate::text::{chars_of, str_eq};

verus! {

broadcast use vstd::std_specs::vec::group_vec_axioms;

/// Whether an operator is arithmetic (`+ - * /`) rather than a comparison.
pub open spec fn is_arithmetic(op: BinaryOperator) -> bool {
    op is Add || op is Sub || op is Mul || op is Div
}

/// The type the parser infers for an expression: literals have their own
/// type; a list has the type of its first element (`any` when empty); an
/// arithmetic operation is a number when both sides are numbers and a
/// string otherwise; a comparison is a bool; a dimension is a number; a
/// calculation has the type of its inside; names, paths, objects, matches
/// and calls are unknown.
pub open spec fn inferred_type(e: Expr) -> NiloType
    decreases e,
{
    match e {
        Expr::Number(_) => NiloType::Number,
        Expr::String(_) => NiloType::String,
        Expr::Bool(_) => NiloType::Bool,
        Expr::Array(items) => if items@.len() == 0 {
            NiloType::Array(Box::new(NiloType::Any))
        } else {
            NiloType::Array(Box::new(inferred_type(items@[0])))
        },
        Expr::BinaryOp { left, op, right } => if is_arithmetic(op) {
            if inferred_type(*left) is Number && inferred_type(*right) is Number {
                NiloType::Number
            } else {
                NiloType::String
            }
        } else {
            NiloType::Bool
        },
        Expr::Path(_) => NiloType::Unknown,
        Expr::Ident(_) => NiloType::Unknown,
        Expr::Object(_) => NiloType::Unknown,
        Expr::Dimension(_) => NiloType::Number,
        Expr::CalcExpr(inner) => inferred_type(*inner),
        Expr::Match { .. } => NiloType::Unknown,
        Expr::FunctionCall { .. } => NiloType::Unknown,
    }
}

/// Infers the type of an expression (see `inferred_type`).
pub fn infer_expr_type(expr: &Expr) -> (t: NiloType)
    ensures
        t == inferred_type(*expr),
    decreases expr,
{
    match expr {
        Expr::Number(_) => NiloType::Number,
        Expr::String(_) => NiloType::String,
        Expr::Bool(_) => NiloType::Bool,
        Expr::Array(items) => {
            if items.len() == 0 {
                NiloType::Array(Box::new(NiloType::Any))
            } else {
                proof {
                    assert(decreases_to!(*expr => items@[0]));
                }
                let first_type = infer_expr_type(&items[0]);
                NiloType::Array(Box::new(first_type))
            }
        },
        Expr::BinaryOp { left, op, right } => {
            let left_ty = infer_expr_type(left);
            let right_ty = infer_expr_type(right);
            match op {
                BinaryOperator::Add | BinaryOperator::Sub | BinaryOperator::Mul
                | BinaryOperator::Div => {
                    if matches!(left_ty, NiloType::Number) && matches!(right_ty, NiloType::Number) {
                        NiloType::Number
                    } else {
                        NiloType::String
                    }
                },
                _ => NiloType::Bool,
            }
        },
        Expr::Path(_) | Expr::Ident(_) => NiloType::Unknown,
        Expr::Object(_) => NiloType::Unknown,
        Expr::Dimension(_) => NiloType::Number,
        Expr::CalcExpr(inner) => infer_expr_type(inner),
        Expr::Match { .. } => NiloType::Unknown,
        Expr::FunctionCall { .. } => NiloType::Unknown,
    }
}

/// The expression with its inferred type.
pub fn make_typed_expr(expr: Expr) -> (t: TypedExpr)
    ensures
        t.expr == expr,
        t.inferred_type == inferred_type(expr),
{
    let inferred_type = infer_expr_type(&expr);
    TypedExpr::new(expr, inferred_type)
}

/// The message of a type error.
pub open spec fn type_error_message(expected: NiloType, actual: NiloType) -> Seq<char> {
    "型エラー: "@ + nilo_type_text(expected) + " 型が期待されていますが、"@ + nilo_type_text(actual)
        + " 型が見つかりました"@
}

/// `Ok` exactly when `actual` is compatible with `expected`; otherwise an
/// error naming both types.
pub fn check_type_compatibility(expected: &NiloType, actual: &NiloType) -> (r: Result<(), String>)
    ensures
        r is Ok <==> compatible(*expected, *actual),
        r matches Err(msg) ==> msg@ == type_error_message(*expected, *actual),
{
    if expected.is_compatible_with(actual) {
        Ok(())
    } else {
        let mut msg = String::from_str("型エラー: ");
        let e = expected.display();
        msg.append(e.as_str());
        msg.append(" 型が期待されていますが、");
        let a = actual.display();
        msg.append(a.as_str());
        msg.append(" 型が見つかりました");
        Err(msg)
    }
}

/// The type a primitive type name denotes: `Number`, `String`, `Bool` and
/// `Any`, capitalised or not; any other name is unknown.
pub open spec fn primitive_type(name: Seq<char>) -> NiloType {
    if name == "Number"@ || name == "number"@ {
        NiloType::Number
    } else if name == "String"@ || name == "string"@ {
        NiloType::String
    } else if name == "Bool"@ || name == "bool"@ {
        NiloType::Bool
    } else if name == "Any"@ || name == "any"@ {
        NiloType::Any
    } else {
        NiloType::Unknown
    }
}

/// How many times `[]` occurs in `s`, counted from the left without
/// overlap.
pub open spec fn bracket_pairs(s: Seq<char>) -> nat
    decreases s.len(),
{
    if s.len() < 2 {
        0
    } else if s[0] == '[' && s[1] == ']' {
        1 + bracket_pairs(s.skip(2))
    } else {
        bracket_pairs(s.skip(1))
    }
}

/// `t` wrapped in `n` array types.
pub open spec fn array_of(t: NiloType, n: nat) -> NiloType
    decreases n,
{
    if n == 0 {
        t
    } else {
        NiloType::Array(Box::new(array_of(t, (n - 1) as nat)))
    }
}

fn primitive_type_exec(name: &str) -> (t: NiloType)
    ensures
        t == primitive_type(name@),
{
    if str_eq(name, "Number") || str_eq(name, "number") {
        NiloType::Number
    } else if str_eq(name, "String") || str_eq(name, "string") {
        NiloType::String
    } else if str_eq(name, "Bool") || str_eq(name, "bool") {
        NiloType::Bool
    } else if str_eq(name, "Any") || str_eq(name, "any") {
        NiloType::Any
    } else {
        NiloType::Unknown
    }
}

/// The type a type expression such as `Number[][]` denotes, given its text
/// and the primitive name it starts with: the primitive type wrapped in one
/// array type per `[]` after the name.
pub fn type_from_text(type_text: &str, primitive: &str) -> (t: NiloType)
    requires
        primitive@.is_prefix_of(type_text@),
    ensures
        t == array_of(
            primitive_type(primitive@),
            bracket_pairs(type_text@.skip(primitive@.len() as int)),
        ),
{
    let v = chars_of(type_text);
    let p = chars_of(primitive);
    let ghost rest = v@.skip(p@.len() as int);
    let mut i: usize = p.len();
    let mut depth: usize = 0;
    while i < v.len()
        invariant
            p.len() <= i <= v.len(),
            v@ == type_text@,
            rest == v@.skip(p@.len() as int),
            depth <= i - p.len(),
            depth + bracket_pairs(v@.skip(i as int)) == bracket_pairs(rest),
        decreases v.len() - i,
    {
        proof {
            let s = v@.skip(i as int);
            assert(s.skip(1) =~= v@.skip(i + 1));
            if s.len() >= 2 {
                assert(s.skip(2) =~= v@.skip(i + 2));
            }
        }
        if i + 1 < v.len() && v[i] == '[' && v[i + 1] == ']' {
            depth = depth + 1;
            i = i + 2;
        } else {
            i = i + 1;
        }
    }
    proof {
        assert(v@.skip(i as int).len() == 0);
    }
    let mut t = primitive_type_exec(primitive);
    let mut k: usize = 0;
    while k < depth
        invariant
            k <= depth,
            t == array_of(primitive_type(primitive@), k as nat),
        decreases depth - k,
    {
        t = NiloType::Array(Box::new(t));
        k = k + 1;
    }
    t
}

// ========================================
// Laws of typing
// ========================================

/// Arithmetic (`+ - * /`) on two numbers is a number, and with any other
/// operand a string, never a boolean; a comparison (`== != < <= > >=`) is a
/// boolean.
pub proof fn lemma_binary_types(l: Box<Expr>, op: BinaryOperator, r: Box<Expr>)
    ensures
        (op is Add || op is Sub || op is Mul || op is Div) && inferred_type(*l) == NiloType::Number
            && inferred_type(*r) == NiloType::Number ==> inferred_type(Expr::BinaryOp { left: l, op: op, right: r })
            == NiloType::Number,
        (op is Add || op is Sub || op is Mul || op is Div) && !(inferred_type(*l) == NiloType::Number
            && inferred_type(*r) == NiloType::Number) ==> inferred_type(
            Expr::BinaryOp { left: l, op: op, right: r },
        ) == NiloType::String,
        (op is Eq || op is Ne || op is Lt || op is Le || op is Gt || op is Ge) ==> inferred_type(
            Expr::BinaryOp { left: l, op: op, right: r },
        ) == NiloType::Bool,
{
}

/// Literals have their own type; a dimension is a number; a calculation has
/// the type of its inside; an empty list is a list of anything and another
/// list a list of its first element's type; names, paths, objects, matches
/// and calls are not known.
pub proof fn lemma_literal_types(n: u32, t: String, b: bool, d: DimensionValue, inner: Box<Expr>, items: Vec<Expr>, e: Expr)
    ensures
        inferred_type(Expr::Number(n)) == NiloType::Number,
        inferred_type(Expr::String(t)) == NiloType::String,
        inferred_type(Expr::Bool(b)) == NiloType::Bool,
        inferred_type(Expr::Dimension(d)) == NiloType::Number,
        inferred_type(Expr::CalcExpr(inner)) == inferred_type(*inner),
        items@.len() == 0 ==> inferred_type(Expr::Array(items)) == NiloType::Array(Box::new(NiloType::Any)),
        items@.len() > 0 ==> inferred_type(Expr::Array(items)) == NiloType::Array(
            Box::new(inferred_type(items@[0])),
        ),
        e is Ident || e is Path || e is Object || e is Match || e is FunctionCall ==> inferred_type(e)
            == NiloType::Unknown,
{
}

/// `any` and `unknown` accept every type and every type is accepted where
/// they are expected; lists are compatible when their elements are; two
/// different primitive types are not compatible.
pub proof fn lemma_compatibility_cases(a: NiloType, b: NiloType)
    ensures
        compatible(NiloType::Any, a) && compatible(a, NiloType::Any),
        compatible(NiloType::Unknown, a) && compatible(a, NiloType::Unknown),
        compatible(NiloType::Array(Box::new(a)), NiloType::Array(Box::new(b))) == compatible(a, b),
        !compatible(NiloType::Number, NiloType::String),
        !compatible(NiloType::Number, NiloType::Bool),
        !compatible(NiloType::String, NiloType::Bool),
        !compatible(NiloType::Number, NiloType::Array(Box::new(a))) || a is Any || a is Unknown,
{
}

/// The primitive names, capitalised or not, name their types; a type name
/// wrapped in one more `[]` is one more list.
pub proof fn lemma_type_names(t: NiloType, k: nat, s: Seq<char>)
    ensures
        primitive_type("Number"@) == NiloType::Number && primitive_type("number"@) == NiloType::Number,
        primitive_type("String"@) == NiloType::String && primitive_type("string"@) == NiloType::String,
        primitive_type("Bool"@) == NiloType::Bool && primitive_type("bool"@) == NiloType::Bool,
        primitive_type("Any"@) == NiloType::Any && primitive_type("any"@) == NiloType::Any,
        array_of(t, k + 1) == NiloType::Array(Box::new(array_of(t, k))),
        bracket_pairs(seq!['[', ']'] + s) == 1 + bracket_pairs(s),
        bracket_pairs(Seq::<char>::empty()) == 0,
{
    reveal_strlit("Number");
    reveal_strlit("number");
    reveal_strlit("String");
    reveal_strlit("string");
    reveal_strlit("Bool");
    reveal_strlit("bool");
    reveal_strlit("Any");
    reveal_strlit("any");
    assert("Bool"@[0] == 'B' && "bool"@[0] == 'b' && "Number"@[0] == 'N' && "number"@[0] == 'n' && "String"@[0]
        == 'S' && "string"@[0] == 's');
    assert("Any"@[0] == 'A' && "any"@[0] == 'a');
    let u = seq!['[', ']'] + s;
    assert(u.skip(2) =~= s);
}

} // verus!
