//! String and value helpers of the parser: unquoting, escape sequences and
//! the conversion of literal expressions into colours, edges and sizes.
use vstd::prelude::*;

use crate::parser::ast::Expr;
use crate::parser::style::{ColorValue, Edges};
use crate::text::{chars_of, push_char, str_eq, trim, trim_bounds};

verus! {

broadcast use vstd::std_specs::vec::group_vec_axioms;

/// What an escape sequence `\c` stands for: the seven recognised escapes, or
/// the backslash and `c` unchanged.
pub open spec fn escape_value(c: char) -> Seq<char> {
    if c == 'n' {
        seq!['\n']
    } else if c == 't' {
        seq!['\t']
    } else if c == 'r' {
        seq!['\r']
    } else if c == '\\' {
        seq!['\\']
    } else if c == '"' {
        seq!['"']
    } else if c == '\'' {
        seq!['\'']
    } else {
        seq!['\\', c]
    }
}

/// `s` with its escape sequences replaced, read from left to right; a
/// trailing lone backslash stays.
pub open spec fn unescape(s: Seq<char>) -> Seq<char>
    decreases s.len(),
{
    if s.len() == 0 {
        Seq::empty()
    } else if s[0] == '\\' {
        if s.len() == 1 {
            seq!['\\']
        } else {
            escape_value(s[1]) + unescape(s.skip(2))
        }
    } else {
        seq![s[0]] + unescape(s.skip(1))
    }
}

/// How a character is written with escapes: newline, tab, carriage
/// return, backslash and both quotes as their escape sequence, any other
/// character as itself.
pub open spec fn escaped_char(c: char) -> Seq<char> {
    if c == '\n' {
        seq!['\\', 'n']
    } else if c == '\t' {
        seq!['\\', 't']
    } else if c == '\r' {
        seq!['\\', 'r']
    } else if c == '\\' {
        seq!['\\', '\\']
    } else if c == '"' {
        seq!['\\', '"']
    } else if c == '\'' {
        seq!['\\', '\'']
    } else {
        seq![c]
    }
}

/// `s` with every character written as `escaped_char` gives it.
pub open spec fn escape(s: Seq<char>) -> Seq<char>
    decreases s.len(),
{
    if s.len() == 0 {
        Seq::empty()
    } else {
        escaped_char(s[0]) + escape(s.skip(1))
    }
}

/// Replacing escape sequences undoes escaping: escaping a string and then
/// processing its escape sequences gives the string back.
pub proof fn lemma_unescape_escape(t: Seq<char>)
    ensures
        unescape(escape(t)) == t,
    decreases t.len(),
{
    if t.len() > 0 {
        lemma_unescape_escape(t.skip(1));
        let c = t[0];
        let e = escape(t);
        let ec = escaped_char(c);
        assert(e == ec + escape(t.skip(1)));
        if ec.len() == 2 {
            assert(e[0] == '\\');
            assert(e[1] == ec[1]);
            assert(e.skip(2) =~= escape(t.skip(1)));
            assert(escape_value(ec[1]) =~= seq![c]);
        } else {
            assert(ec =~= seq![c]);
            assert(e[0] == c);
            assert(e.skip(1) =~= escape(t.skip(1)));
        }
        assert(seq![c] + t.skip(1) =~= t);
    } else {
        assert(escape(t) =~= Seq::<char>::empty());
        assert(t =~= Seq::<char>::empty());
    }
}

/// A string without a backslash has no escape sequence to replace.
pub proof fn lemma_unescape_plain(s: Seq<char>)
    requires
        forall|i: int| 0 <= i < s.len() ==> s[i] != '\\',
    ensures
        unescape(s) == s,
    decreases s.len(),
{
    if s.len() > 0 {
        assert forall|i: int| 0 <= i < s.skip(1).len() implies s.skip(1)[i] != '\\' by {
            assert(s.skip(1)[i] == s[i + 1]);
        }
        lemma_unescape_plain(s.skip(1));
        assert(seq![s[0]] + s.skip(1) =~= s);
    } else {
        assert(unescape(s) =~= s);
    }
}

fn push_escape_value(out: &mut String, c: char)
    ensures
        final(out)@ == old(out)@ + escape_value(c),
{
    if c == 'n' {
        push_char(out, '\n');
    } else if c == 't' {
        push_char(out, '\t');
    } else if c == 'r' {
        push_char(out, '\r');
    } else if c == '\\' {
        push_char(out, '\\');
    } else if c == '"' {
        push_char(out, '"');
    } else if c == '\'' {
        push_char(out, '\'');
    } else {
        push_char(out, '\\');
        push_char(out, c);
    }
    proof {
        assert(final(out)@ =~= old(out)@ + escape_value(c));
    }
}

fn unescape_range(v: &Vec<char>, from: usize, to: usize) -> (out: String)
    requires
        from <= to <= v.len(),
    ensures
        out@ == unescape(v@.subrange(from as int, to as int)),
{
    let ghost w = v@.subrange(from as int, to as int);
    let mut out = String::new();
    let mut i: usize = from;
    proof {
        assert(w.skip(0) =~= w);
    }
    while i < to
        invariant
            from <= i <= to <= v.len(),
            w == v@.subrange(from as int, to as int),
            unescape(w) == out@ + unescape(w.skip(i - from)),
        decreases to - i,
    {
        let ghost rest = w.skip(i - from);
        let ghost prev = out@;
        let c = v[i];
        if c == '\\' {
            if i + 1 < to {
                push_escape_value(&mut out, v[i + 1]);
                proof {
                    assert(rest.skip(2) =~= w.skip(i + 2 - from));
                    assert(out@ + unescape(w.skip(i + 2 - from)) =~= prev + unescape(rest)) by {
                        assert(rest[1] == v@[i + 1]);
                    };
                }
                i = i + 2;
            } else {
                push_char(&mut out, '\\');
                proof {
                    assert(rest.len() == 1);
                    assert(w.skip(i + 1 - from).len() == 0);
                    assert(unescape(w.skip(i + 1 - from)) =~= Seq::<char>::empty());
                    assert(out@ + unescape(w.skip(i + 1 - from)) =~= prev + unescape(rest));
                }
                i = i + 1;
            }
        } else {
            push_char(&mut out, c);
            proof {
                assert(rest.skip(1) =~= w.skip(i + 1 - from));
                assert(out@ + unescape(w.skip(i + 1 - from)) =~= prev + unescape(rest));
            }
            i = i + 1;
        }
    }
    proof {
        assert(w.skip(to - from) =~= Seq::<char>::empty());
        assert(out@ + unescape(w.skip(to - from)) =~= out@);
    }
    out
}

/// Replaces the escape sequences `\n`, `\t`, `\r`, `\\`, `\"` and `\'`;
/// any other backslash is kept as written.
pub fn process_escape_sequences(s: &str) -> (r: String)
    ensures
        r@ == unescape(s@),
{
    let v = chars_of(s);
    proof {
        assert(v@.subrange(0, v@.len() as int) =~= v@);
    }
    unescape_range(&v, 0, v.len())
}

/// Whether `t` is wrapped in a pair of quotes: `"..."` or `「...」`.
pub open spec fn is_quoted(t: Seq<char>) -> bool {
    t.len() > 0 && ((t[0] == '"' && t.last() == '"') || (t[0] == '「' && t.last() == '」'))
}

/// The text of a literal: trimmed, its enclosing quotes removed where it
/// has them.
pub open spec fn unquoted(s: Seq<char>) -> Seq<char> {
    let t = trim(s);
    if is_quoted(t) {
        t.subrange(1, t.len() - 1)
    } else {
        t
    }
}

/// The value of a string literal: surrounding whitespace and the enclosing
/// quotes (`"..."` or `「...」`) removed, then escape sequences replaced.
/// A literal that is a single `"` has no closing quote and is not accepted.
pub fn unquote(s: &str) -> (r: String)
    requires
        trim(s@) != seq!['"'],
    ensures
        r@ == unescape(unquoted(s@)),
{
    let v = chars_of(s);
    let (a, b) = trim_bounds(&v);
    let ghost t = v@.subrange(a as int, b as int);
    if b > a && ((v[a] == '"' && v[b - 1] == '"') || (v[a] == '「' && v[b - 1] == '」')) {
        proof {
            assert(t[0] == v@[a as int]);
            assert(t.last() == v@[b - 1]);
            assert(is_quoted(t));
            if t.len() == 1 {
                assert(t =~= seq!['"']);
            }
            assert(t.subrange(1, t.len() - 1) =~= v@.subrange(a + 1, b - 1));
        }
        unescape_range(&v, a + 1, b - 1)
    } else {
        proof {
            if t.len() > 0 {
                assert(t[0] == v@[a as int]);
                assert(t.last() == v@[b - 1]);
            }
        }
        unescape_range(&v, a, b)
    }
}

// ========================================
// Literal values
// ========================================

/// Bit pattern of the single-precision value 1.0.
pub const ONE_BITS: u32 = 0x3f80_0000;

/// Bit pattern of the single-precision value 0.0.
pub const ZERO_BITS: u32 = 0;

/// The number an expression holds, or `default` when it holds none.
pub open spec fn number_or(e: Expr, default: u32) -> u32 {
    match e {
        Expr::Number(n) => n,
        _ => default,
    }
}

fn number_or_exec(e: &Expr, default: u32) -> (n: u32)
    ensures
        n == number_or(*e, default),
{
    match e {
        Expr::Number(n) => *n,
        _ => default,
    }
}

/// The lowercase form of a string (std `str::to_lowercase`, by the Unicode
/// Lowercase mapping).
pub uninterp spec fn spec_to_lowercase(s: Seq<char>) -> Seq<char>;

/// Lowercases a string with std `str::to_lowercase`; the result is named by
/// `spec_to_lowercase` and nothing more is claimed of it.
#[verifier::external_body]
pub(crate) fn to_lowercase(s: &str) -> (r: String)
    ensures
        r@ == spec_to_lowercase(s@),
{
    s.to_lowercase()
}

/// The channels of a named colour (`red`, `green`, `blue`, `white`,
/// `black`, `transparent`), given in lowercase.
pub open spec fn named_color(lower: Seq<char>) -> Option<[u32; 4]> {
    if lower == "red"@ {
        Some([ONE_BITS, ZERO_BITS, ZERO_BITS, ONE_BITS])
    } else if lower == "green"@ {
        Some([ZERO_BITS, ONE_BITS, ZERO_BITS, ONE_BITS])
    } else if lower == "blue"@ {
        Some([ZERO_BITS, ZERO_BITS, ONE_BITS, ONE_BITS])
    } else if lower == "white"@ {
        Some([ONE_BITS, ONE_BITS, ONE_BITS, ONE_BITS])
    } else if lower == "black"@ {
        Some([ZERO_BITS, ZERO_BITS, ZERO_BITS, ONE_BITS])
    } else if lower == "transparent"@ {
        Some([ZERO_BITS, ZERO_BITS, ZERO_BITS, ZERO_BITS])
    } else {
        None
    }
}

/// The colour an expression denotes: a string starting with `#` is a hex
/// colour; another string is a named colour when its lowercase form names
/// one and is otherwise kept as written; a list of at least three numbers is
/// red, green, blue and optionally alpha (a missing or non-numeric channel
/// is 0.0, a missing alpha 1.0). Anything else denotes no colour.
pub open spec fn spec_color_from_expr(e: Expr) -> Option<ColorValue> {
    match e {
        Expr::String(s) => if s@.len() > 0 && s@[0] == '#' {
            Some(ColorValue::Hex(s))
        } else {
            match named_color(spec_to_lowercase(s@)) {
                Some(c) => Some(ColorValue::Rgba(c)),
                None => Some(ColorValue::Hex(s)),
            }
        },
        Expr::Array(vals) => if vals@.len() >= 3 {
            Some(
                ColorValue::Rgba(
                    [
                        number_or(vals@[0], ZERO_BITS),
                        number_or(vals@[1], ZERO_BITS),
                        number_or(vals@[2], ZERO_BITS),
                        if vals@.len() >= 4 {
                            number_or(vals@[3], ONE_BITS)
                        } else {
                            ONE_BITS
                        },
                    ],
                ),
            )
        } else {
            None
        },
        _ => None,
    }
}

fn named_color_exec(lower: &str) -> (c: Option<[u32; 4]>)
    ensures
        c == named_color(lower@),
{
    if str_eq(lower, "red") {
        Some([ONE_BITS, ZERO_BITS, ZERO_BITS, ONE_BITS])
    } else if str_eq(lower, "green") {
        Some([ZERO_BITS, ONE_BITS, ZERO_BITS, ONE_BITS])
    } else if str_eq(lower, "blue") {
        Some([ZERO_BITS, ZERO_BITS, ONE_BITS, ONE_BITS])
    } else if str_eq(lower, "white") {
        Some([ONE_BITS, ONE_BITS, ONE_BITS, ONE_BITS])
    } else if str_eq(lower, "black") {
        Some([ZERO_BITS, ZERO_BITS, ZERO_BITS, ONE_BITS])
    } else if str_eq(lower, "transparent") {
        Some([ZERO_BITS, ZERO_BITS, ZERO_BITS, ZERO_BITS])
    } else {
        None
    }
}

/// The colour an expression denotes (see `spec_color_from_expr`).
pub fn color_from_expr(expr: &Expr) -> (c: Option<ColorValue>)
    ensures
        c == spec_color_from_expr(*expr),
{
    match expr {
        Expr::String(s) => {
            let v = chars_of(s.as_str());
            if v.len() > 0 && v[0] == '#' {
                Some(ColorValue::Hex(s.clone()))
            } else {
                let lower = to_lowercase(s.as_str());
                match named_color_exec(lower.as_str()) {
                    Some(c) => Some(ColorValue::Rgba(c)),
                    None => Some(ColorValue::Hex(s.clone())),
                }
            }
        },
        Expr::Array(vals) => {
            if vals.len() >= 3 {
                let r = number_or_exec(&vals[0], ZERO_BITS);
                let g = number_or_exec(&vals[1], ZERO_BITS);
                let b = number_or_exec(&vals[2], ZERO_BITS);
                let a = if vals.len() >= 4 {
                    number_or_exec(&vals[3], ONE_BITS)
                } else {
                    ONE_BITS
                };
                Some(ColorValue::Rgba([r, g, b, a]))
            } else {
                None
            }
        },
        _ => None,
    }
}

/// The edges an object literal sets: each `top`, `right`, `bottom` or `left`
/// key with a number sets that edge (a later key wins); the rest are zero.
pub open spec fn edges_from_pairs(kvs: Seq<(String, Expr)>) -> Edges
    decreases kvs.len(),
{
    if kvs.len() == 0 {
        Edges { top: ZERO_BITS, right: ZERO_BITS, bottom: ZERO_BITS, left: ZERO_BITS }
    } else {
        let e = edges_from_pairs(kvs.drop_last());
        let k = kvs.last().0@;
        match kvs.last().1 {
            Expr::Number(n) => if k == "top"@ {
                Edges { top: n, ..e }
            } else if k == "right"@ {
                Edges { right: n, ..e }
            } else if k == "bottom"@ {
                Edges { bottom: n, ..e }
            } else if k == "left"@ {
                Edges { left: n, ..e }
            } else {
                e
            },
            _ => e,
        }
    }
}

/// The edges an expression denotes: a number is the same on all edges; a
/// list of two is vertical and horizontal; a list of four is top, right,
/// bottom and left (a non-numeric entry is 0.0); an object sets the edges it
/// names. Anything else denotes no edges.
pub open spec fn spec_edges_from_expr(e: Expr) -> Option<Edges> {
    match e {
        Expr::Number(n) => Some(Edges { top: n, right: n, bottom: n, left: n }),
        Expr::Array(vals) => if vals@.len() == 2 {
            let v = number_or(vals@[0], ZERO_BITS);
            let h = number_or(vals@[1], ZERO_BITS);
            Some(Edges { top: v, right: h, bottom: v, left: h })
        } else if vals@.len() == 4 {
            Some(
                Edges {
                    top: number_or(vals@[0], ZERO_BITS),
                    right: number_or(vals@[1], ZERO_BITS),
                    bottom: number_or(vals@[2], ZERO_BITS),
                    left: number_or(vals@[3], ZERO_BITS),
                },
            )
        } else {
            None
        },
        Expr::Object(kvs) => Some(edges_from_pairs(kvs@)),
        _ => None,
    }
}

/// The edges an expression denotes (see `spec_edges_from_expr`).
pub fn edges_from_expr(expr: &Expr) -> (r: Option<Edges>)
    ensures
        r == spec_edges_from_expr(*expr),
{
    match expr {
        Expr::Number(n) => Some(Edges::all(*n)),
        Expr::Array(vals) => {
            if vals.len() == 2 {
                let v = number_or_exec(&vals[0], ZERO_BITS);
                let h = number_or_exec(&vals[1], ZERO_BITS);
                Some(Edges::vh(v, h))
            } else if vals.len() == 4 {
                Some(
                    Edges {
                        top: number_or_exec(&vals[0], ZERO_BITS),
                        right: number_or_exec(&vals[1], ZERO_BITS),
                        bottom: number_or_exec(&vals[2], ZERO_BITS),
                        left: number_or_exec(&vals[3], ZERO_BITS),
                    },
                )
            } else {
                None
            }
        },
        Expr::Object(kvs) => {
            let mut edges = Edges::zero();
            let mut i: usize = 0;
            while i < kvs.len()
                invariant
                    i <= kvs.len(),
                    edges == edges_from_pairs(kvs@.take(i as int)),
                decreases kvs.len() - i,
            {
                proof {
                    assert(kvs@.take(i + 1).drop_last() =~= kvs@.take(i as int));
                }
                let k = kvs[i].0.as_str();
                match &kvs[i].1 {
                    Expr::Number(n) => {
                        if str_eq(k, "top") {
                            edges.top = *n;
                        } else if str_eq(k, "right") {
                            edges.right = *n;
                        } else if str_eq(k, "bottom") {
                            edges.bottom = *n;
                        } else if str_eq(k, "left") {
                            edges.left = *n;
                        }
                    },
                    _ => {},
                }
                i = i + 1;
            }
            proof {
                assert(kvs@.take(kvs@.len() as int) =~= kvs@);
            }
            Some(edges)
        },
        _ => None,
    }
}

/// The size a list of at least two entries denotes: width and height (a
/// non-numeric entry is 0.0). Anything else denotes no size.
pub open spec fn spec_size_from_expr(e: Expr) -> Option<[u32; 2]> {
    match e {
        Expr::Array(vals) => if vals@.len() >= 2 {
            Some([number_or(vals@[0], ZERO_BITS), number_or(vals@[1], ZERO_BITS)])
        } else {
            None
        },
        _ => None,
    }
}

pub fn size_from_expr(expr: &Expr) -> (r: Option<[u32; 2]>)
    ensures
        r == spec_size_from_expr(*expr),
{
    match expr {
        Expr::Array(vals) => {
            if vals.len() >= 2 {
                Some([number_or_exec(&vals[0], ZERO_BITS), number_or_exec(&vals[1], ZERO_BITS)])
            } else {
                None
            }
        },
        _ => None,
    }
}

// ========================================
// Laws of the literal values
// ========================================

/// The number an entry gives a channel or an edge: the number itself, or
/// `default` for an entry that is not a number.
pub open spec fn entry_number(e: Expr, default: u32) -> u32 {
    match e {
        Expr::Number(n) => n,
        _ => default,
    }
}

/// A list of at least three entries is a colour whose channels are its
/// entries in order: red is the first, green the second, blue the third and
/// alpha the fourth (1.0 when there is none); a non-numeric entry counts as
/// 0.0 (as 1.0 for alpha).
pub proof fn lemma_color_from_list(vals: Vec<Expr>)
    requires
        vals@.len() >= 3,
    ensures
        spec_color_from_expr(Expr::Array(vals)) matches Some(ColorValue::Rgba(ch)) && ch[0] == entry_number(
            vals@[0],
            ZERO_BITS,
        ) && ch[1] == entry_number(vals@[1], ZERO_BITS) && ch[2] == entry_number(vals@[2], ZERO_BITS)
            && ch[3] == (if vals@.len() >= 4 {
            entry_number(vals@[3], ONE_BITS)
        } else {
            ONE_BITS
        }),
{
}

/// A list of fewer than three entries, a number, a boolean or a name is no
/// colour.
pub proof fn lemma_no_color(vals: Vec<Expr>, other: Expr)
    ensures
        vals@.len() < 3 ==> spec_color_from_expr(Expr::Array(vals)) is None,
        !(other is String) && !(other is Array) ==> spec_color_from_expr(other) is None,
{
}

/// A string starting with `#` is a hex colour, kept as written; another
/// string that lowercases to a colour name is that colour; any other string
/// is kept as written.
pub proof fn lemma_color_from_string(s: String)
    ensures
        s@.len() > 0 && s@[0] == '#' ==> spec_color_from_expr(Expr::String(s)) == Some(ColorValue::Hex(s)),
        !(s@.len() > 0 && s@[0] == '#') && spec_to_lowercase(s@) == "red"@ ==> spec_color_from_expr(
            Expr::String(s),
        ) == Some(ColorValue::Rgba([ONE_BITS, ZERO_BITS, ZERO_BITS, ONE_BITS])),
        !(s@.len() > 0 && s@[0] == '#') && spec_to_lowercase(s@) == "green"@ ==> spec_color_from_expr(
            Expr::String(s),
        ) == Some(ColorValue::Rgba([ZERO_BITS, ONE_BITS, ZERO_BITS, ONE_BITS])),
        !(s@.len() > 0 && s@[0] == '#') && spec_to_lowercase(s@) == "blue"@ ==> spec_color_from_expr(
            Expr::String(s),
        ) == Some(ColorValue::Rgba([ZERO_BITS, ZERO_BITS, ONE_BITS, ONE_BITS])),
        spec_color_from_expr(Expr::String(s)) matches Some(c) && (c matches ColorValue::Hex(h) ==> h == s),
{
    reveal_strlit("red");
    reveal_strlit("green");
    reveal_strlit("blue");
    assert("green"@ != "red"@) by {
        assert("green"@.len() != "red"@.len());
    }
    assert("blue"@ != "red"@) by {
        assert("blue"@[0] != "red"@[0]);
    }
    assert("blue"@ != "green"@) by {
        assert("blue"@.len() != "green"@.len());
    }
}

/// A number is the same width on every edge; a list of two is vertical
/// (top and bottom) then horizontal (right and left); a list of four is
/// top, right, bottom, left; a non-numeric entry counts as 0.0. Lists of
/// other lengths, strings and booleans give no edges.
pub proof fn lemma_edges_from_numbers(n: u32, vals: Vec<Expr>, other: Expr)
    ensures
        spec_edges_from_expr(Expr::Number(n)) == Some(Edges { top: n, right: n, bottom: n, left: n }),
        vals@.len() == 2 ==> spec_edges_from_expr(Expr::Array(vals)) == Some(
            Edges {
                top: entry_number(vals@[0], ZERO_BITS),
                right: entry_number(vals@[1], ZERO_BITS),
                bottom: entry_number(vals@[0], ZERO_BITS),
                left: entry_number(vals@[1], ZERO_BITS),
            },
        ),
        vals@.len() == 4 ==> spec_edges_from_expr(Expr::Array(vals)) == Some(
            Edges {
                top: entry_number(vals@[0], ZERO_BITS),
                right: entry_number(vals@[1], ZERO_BITS),
                bottom: entry_number(vals@[2], ZERO_BITS),
                left: entry_number(vals@[3], ZERO_BITS),
            },
        ),
        vals@.len() != 2 && vals@.len() != 4 ==> spec_edges_from_expr(Expr::Array(vals)) is None,
        other is String || other is Bool ==> spec_edges_from_expr(other) is None,
{
}

/// In an object literal, the last `top`, `right`, `bottom` or `left` key
/// with a number gives that edge, leaving the others as the earlier keys
/// gave them; with no key, every edge is 0.0.
pub proof fn lemma_edges_from_object(kvs: Seq<(String, Expr)>, k: String, n: u32)
    ensures
        kvs.len() == 0 ==> (edges_from_pairs(kvs) == Edges {
            top: ZERO_BITS,
            right: ZERO_BITS,
            bottom: ZERO_BITS,
            left: ZERO_BITS,
        }),
        k@ == "top"@ ==> (edges_from_pairs(kvs.push((k, Expr::Number(n)))) == Edges {
            top: n,
            ..edges_from_pairs(kvs)
        }),
        k@ == "right"@ ==> (edges_from_pairs(kvs.push((k, Expr::Number(n)))) == Edges {
            right: n,
            ..edges_from_pairs(kvs)
        }),
        k@ == "bottom"@ ==> (edges_from_pairs(kvs.push((k, Expr::Number(n)))) == Edges {
            bottom: n,
            ..edges_from_pairs(kvs)
        }),
        k@ == "left"@ ==> (edges_from_pairs(kvs.push((k, Expr::Number(n)))) == Edges {
            left: n,
            ..edges_from_pairs(kvs)
        }),
{
    reveal_strlit("top");
    reveal_strlit("right");
    reveal_strlit("bottom");
    reveal_strlit("left");
    assert("right"@ != "top"@) by {
        assert("right"@.len() != "top"@.len());
    }
    assert("bottom"@ != "top"@) by {
        assert("bottom"@.len() != "top"@.len());
    }
    assert("bottom"@ != "right"@) by {
        assert("bottom"@.len() != "right"@.len());
    }
    assert("left"@ != "top"@) by {
        assert("left"@.len() != "top"@.len());
    }
    assert("left"@ != "right"@) by {
        assert("left"@.len() != "right"@.len());
    }
    assert("left"@ != "bottom"@) by {
        assert("left"@.len() != "bottom"@.len());
    }
    let t = kvs.push((k, Expr::Number(n)));
    assert(t.drop_last() =~= kvs);
}

/// A list of at least two entries is a size: the first is the width and the
/// second the height (a non-numeric entry counts as 0.0); a shorter list or
/// anything but a list is no size.
pub proof fn lemma_size_from_list(vals: Vec<Expr>, other: Expr)
    ensures
        vals@.len() >= 2 ==> spec_size_from_expr(Expr::Array(vals)) == Some(
            [entry_number(vals@[0], ZERO_BITS), entry_number(vals@[1], ZERO_BITS)],
        ),
        vals@.len() < 2 ==> spec_size_from_expr(Expr::Array(vals)) is None,
        !(other is Array) ==> spec_size_from_expr(other) is None,
{
}

} // verus!
