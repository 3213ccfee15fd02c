//! The items a `foreach` iterates over: the value of its iterable, split as
//! a JSON array where it is one.
use vstd::prelude::*;
use vstd::string::StringExecFns;

use crate::parser::flow::texts;
use crate::text::{chars_of, string_from_chars};

verus! {

broadcast use vstd::std_specs::vec::group_vec_axioms;

/// An element of a JSON array: a string (its content), a number (as
/// serde_json writes it), a bool, or anything else (as compact JSON text).
pub enum JsonItem {
    Text(String),
    Number(String),
    Bool(bool),
    Other(String),
}

pub enum JsonItemView {
    Text(Seq<char>),
    Number(Seq<char>),
    Bool(bool),
    Other(Seq<char>),
}

pub open spec fn json_item_view(i: JsonItem) -> JsonItemView {
    match i {
        JsonItem::Text(s) => JsonItemView::Text(s@),
        JsonItem::Number(s) => JsonItemView::Number(s@),
        JsonItem::Bool(b) => JsonItemView::Bool(b),
        JsonItem::Other(s) => JsonItemView::Other(s@),
    }
}

/// The elements serde_json reads from `s` as a `Vec<serde_json::Value>`,
/// or `None` when `s` is not a JSON array.
pub uninterp spec fn spec_json_array(s: Seq<char>) -> Option<Seq<JsonItemView>>;

/// Reads `s` with `serde_json::from_str::<Vec<serde_json::Value>>` and
/// describes each element: a string by its content, a number by its
/// `Display` text, a bool by its value, anything else by its `Display`
/// (compact JSON) text. The result depends on `s` alone; it is named by
/// `spec_json_array` and nothing more is claimed of it.
#[verifier::external_body]
fn parse_json_array(s: &str) -> (r: Option<Vec<JsonItem>>)
    ensures
        match r {
            Some(v) => spec_json_array(s@) == Some(v@.map_values(|i: JsonItem| json_item_view(i))),
            None => spec_json_array(s@) is None,
        },
{
    match serde_json::from_str::<Vec<serde_json::Value>>(s) {
        Ok(values) => Some(values.into_iter().map(|v| match v {
            serde_json::Value::String(t) => JsonItem::Text(t),
            serde_json::Value::Number(n) => JsonItem::Number(n.to_string()),
            serde_json::Value::Bool(b) => JsonItem::Bool(b),
            other => JsonItem::Other(other.to_string()),
        }).collect()),
        Err(_) => None,
    }
}

/// `s` without leading `"` characters.
pub open spec fn strip_leading_quotes(s: Seq<char>) -> Seq<char>
    decreases s.len(),
{
    if s.len() > 0 && s[0] == '"' {
        strip_leading_quotes(s.skip(1))
    } else {
        s
    }
}

/// `s` without trailing `"` characters.
pub open spec fn strip_trailing_quotes(s: Seq<char>) -> Seq<char>
    decreases s.len(),
{
    if s.len() > 0 && s.last() == '"' {
        strip_trailing_quotes(s.drop_last())
    } else {
        s
    }
}

/// `s` without the `"` characters at either end, as
/// `str::trim_matches('"')` gives it.
pub open spec fn strip_quotes(s: Seq<char>) -> Seq<char> {
    strip_trailing_quotes(strip_leading_quotes(s))
}

/// The text that stands for an element.
pub open spec fn item_text(i: JsonItemView) -> Seq<char> {
    match i {
        JsonItemView::Text(s) => s,
        JsonItemView::Number(s) => s,
        JsonItemView::Bool(b) => if b {
            "true"@
        } else {
            "false"@
        },
        JsonItemView::Other(s) => strip_quotes(s),
    }
}

/// The items of a `foreach` whose iterable evaluates to `v`: when `v` is
/// written as a list (`[` ... `]`) and reads as a JSON array, the text of
/// each element; otherwise `v` itself as the one item.
pub open spec fn foreach_item_texts(v: Seq<char>) -> Seq<Seq<char>> {
    if v.len() > 0 && v[0] == '[' && v.last() == ']' {
        match spec_json_array(v) {
            Some(items) => items.map_values(|i: JsonItemView| item_text(i)),
            None => seq![v],
        }
    } else {
        seq![v]
    }
}

proof fn lemma_strip_leading(s: Seq<char>, i: int)
    requires
        0 <= i <= s.len(),
        forall|k: int| 0 <= k < i ==> #[trigger] s[k] == '"',
    ensures
        strip_leading_quotes(s) == strip_leading_quotes(s.skip(i)),
    decreases i,
{
    if i > 0 {
        assert(s.skip(1).skip(i - 1) =~= s.skip(i));
        lemma_strip_leading(s.skip(1), i - 1);
    } else {
        assert(s.skip(0) =~= s);
    }
}

proof fn lemma_strip_trailing(s: Seq<char>, j: int)
    requires
        0 <= j <= s.len(),
        forall|k: int| j <= k < s.len() ==> #[trigger] s[k] == '"',
    ensures
        strip_trailing_quotes(s) == strip_trailing_quotes(s.take(j)),
    decreases s.len() - j,
{
    if j < s.len() {
        assert(s.drop_last().take(j) =~= s.take(j));
        lemma_strip_trailing(s.drop_last(), j);
    } else {
        assert(s.take(j) =~= s);
    }
}

/// `s` without the `"` characters at either end.
pub fn trim_quotes(s: &str) -> (r: String)
    ensures
        r@ == strip_quotes(s@),
{
    let v = chars_of(s);
    let mut a: usize = 0;
    while a < v.len() && v[a] == '"'
        invariant
            a <= v.len(),
            forall|k: int| 0 <= k < a ==> #[trigger] v@[k] == '"',
        decreases v.len() - a,
    {
        a = a + 1;
    }
    let mut b: usize = v.len();
    while b > a && v[b - 1] == '"'
        invariant
            a <= b <= v.len(),
            forall|k: int| b <= k < v.len() ==> #[trigger] v@[k] == '"',
        decreases b,
    {
        b = b - 1;
    }
    proof {
        lemma_strip_leading(v@, a as int);
        let t = v@.skip(a as int);
        assert(t.len() == 0 || t[0] != '"');
        assert(strip_leading_quotes(t) == t);
        assert forall|k: int| (b - a) <= k < t.len() implies #[trigger] t[k] == '"' by {
            assert(t[k] == v@[a + k]);
        }
        lemma_strip_trailing(t, b - a);
        let u = t.take(b - a);
        assert(u =~= v@.subrange(a as int, b as int));
        assert(u.len() == 0 || u.last() != '"');
        assert(strip_trailing_quotes(u) == u);
    }
    string_from_chars(&v, a, b)
}

fn item_text_exec(i: &JsonItem) -> (r: String)
    ensures
        r@ == item_text(json_item_view(*i)),
{
    match i {
        JsonItem::Text(s) => s.clone(),
        JsonItem::Number(s) => s.clone(),
        JsonItem::Bool(b) => if *b {
            String::from_str("true")
        } else {
            String::from_str("false")
        },
        JsonItem::Other(s) => trim_quotes(s.as_str()),
    }
}

/// The items a `foreach` iterates over when its iterable evaluates to
/// `iterable_value` (see `foreach_item_texts`).
pub fn foreach_items(iterable_value: &str) -> (items: Vec<String>)
    ensures
        texts(items@) == foreach_item_texts(iterable_value@),
{
    let v = chars_of(iterable_value);
    let mut single: Vec<String> = Vec::new();
    single.push(String::from_str(iterable_value));
    proof {
        assert(texts(single@) =~= seq![iterable_value@]);
    }
    if v.len() > 0 && v[0] == '[' && v[v.len() - 1] == ']' {
        match parse_json_array(iterable_value) {
            Some(parsed) => {
                let mut items: Vec<String> = Vec::new();
                let mut i: usize = 0;
                while i < parsed.len()
                    invariant
                        i <= parsed.len(),
                        items@.len() == i,
                        forall|k: int|
                            0 <= k < i ==> #[trigger] items@[k]@ == item_text(json_item_view(parsed@[k])),
                    decreases parsed.len() - i,
                {
                    items.push(item_text_exec(&parsed[i]));
                    i = i + 1;
                }
                proof {
                    assert(texts(items@) =~= parsed@.map_values(|i: JsonItem| json_item_view(i)).map_values(
                        |i: JsonItemView| item_text(i),
                    ));
                }
                items
            },
            None => single,
        }
    } else {
        single
    }
}

} // verus!
