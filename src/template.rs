//! Message templates: `{name}` placeholders resolved against a property bag.
use vstd::prelude::*;
use crate::text::{int_text, push_int};

verus! {

/// A top-level property value, as far as the renderer reads it.
#[derive(Debug, Clone, PartialEq, Eq)]
pub enum Prop {
    /// A JSON string.
    Str(String),
    /// A JSON integer that fits in `i64`.
    Int(i64),
    /// Any other JSON value: float, bool, null, array, object, or an integer beyond `i64`.
    Other,
}

/// The mathematical value of a `Prop`.
pub enum PropModel {
    Str(Seq<char>),
    Int(int),
    Other,
}

impl View for Prop {
    type V = PropModel;

    open spec fn view(&self) -> PropModel {
        match self {
            Prop::Str(s) => PropModel::Str(s@),
            Prop::Int(n) => PropModel::Int(*n as int),
            Prop::Other => PropModel::Other,
        }
    }
}

/// A property bag as a sequence of keys and values.
pub open spec fn entries_view(es: Seq<(String, Prop)>) -> Seq<(Seq<char>, PropModel)> {
    es.map_values(|e: (String, Prop)| (e.0@, e.1@))
}

/// The value of the first entry whose key is `key`.
pub open spec fn lookup(es: Seq<(Seq<char>, PropModel)>, key: Seq<char>) -> Option<PropModel>
    decreases es.len(),
{
    if es.len() == 0 {
        None
    } else if es[0].0 == key {
        Some(es[0].1)
    } else {
        lookup(es.drop_first(), key)
    }
}

/// The text that replaces the placeholder `{name}`: a string verbatim, an
/// integer in base 10, and `empty` for a missing key or any other value.
pub open spec fn substitution(name: Seq<char>, es: Seq<(Seq<char>, PropModel)>) -> Seq<char> {
    match lookup(es, name) {
        Some(PropModel::Str(s)) => s,
        Some(PropModel::Int(n)) => int_text(n),
        _ => "empty"@,
    }
}

/// The first index at or after `k` where `s` holds `c`.
pub open spec fn index_from(s: Seq<char>, c: char, k: nat) -> Option<nat>
    decreases s.len() - k,
{
    if k >= s.len() {
        None
    } else if s[k as int] == c {
        Some(k)
    } else {
        index_from(s, c, k + 1)
    }
}

/// `t` from position `k` on, rendered: each `{` is paired with the first `}`
/// after it, and the span from one to the other is replaced by the
/// substitution for the text between them. Text outside such pairs, including
/// a `{` with no `}` after it, is kept as it is.
pub open spec fn rendered_from(t: Seq<char>, es: Seq<(Seq<char>, PropModel)>, k: nat) -> Seq<char>
    decreases t.len() - k,
    via rendered_from_decreases
{
    if k > t.len() {
        Seq::empty()
    } else {
        match index_from(t, '{', k) {
            None => t.subrange(k as int, t.len() as int),
            Some(o) => match index_from(t, '}', o + 1) {
                None => t.subrange(k as int, t.len() as int),
                Some(c) => t.subrange(k as int, o as int) + substitution(
                    t.subrange((o + 1) as int, c as int),
                    es,
                ) + rendered_from(t, es, c + 1),
            },
        }
    }
}

#[via_fn]
proof fn rendered_from_decreases(t: Seq<char>, es: Seq<(Seq<char>, PropModel)>, k: nat) {
    if k <= t.len() {
        lemma_index_from(t, '{', k);
        if let Some(o) = index_from(t, '{', k) {
            lemma_index_from(t, '}', o + 1);
        }
    }
}

/// The template `t` rendered against the property bag `es`.
pub open spec fn rendered(t: Seq<char>, es: Seq<(Seq<char>, PropModel)>) -> Seq<char> {
    rendered_from(t, es, 0)
}

/// Whether `t` holds a `{` with a `}` somewhere after it.
pub open spec fn has_placeholder(t: Seq<char>) -> bool {
    exists|i: int, j: int| 0 <= i < j < t.len() && t[i] == '{' && t[j] == '}'
}

/// What `index_from` finds: the first occurrence at or after `k`, or none.
pub proof fn lemma_index_from(s: Seq<char>, c: char, k: nat)
    ensures
        match index_from(s, c, k) {
            Some(i) => k <= i < s.len() && s[i as int] == c && forall|j: int|
                k <= j < i ==> s[j] != c,
            None => forall|j: int| k <= j < s.len() ==> s[j] != c,
        },
    decreases s.len() - k,
{
    if k < s.len() && s[k as int] != c {
        lemma_index_from(s, c, k + 1);
    }
}

/// A message with no `{…}` pair renders to itself, whatever the properties:
/// rendering an already rendered message changes nothing.
pub proof fn lemma_render_plain(t: Seq<char>, es: Seq<(Seq<char>, PropModel)>)
    requires
        !has_placeholder(t),
    ensures
        rendered(t, es) == t,
{
    reveal_with_fuel(rendered_from, 1);
    lemma_index_from(t, '{', 0);
    if let Some(o) = index_from(t, '{', 0) {
        lemma_index_from(t, '}', o + 1);
        if let Some(c) = index_from(t, '}', o + 1) {
            assert(t[o as int] == '{' && t[c as int] == '}');
        }
    }
    assert(t.subrange(0, t.len() as int) =~= t);
}

/// Finds the first `c` in `t` at or after `from`.
fn find_char(t: &str, n: usize, c: char, from: usize) -> (r: Option<usize>)
    requires
        n == t@.len(),
        from <= n,
    ensures
        match r {
            Some(i) => index_from(t@, c, from as nat) == Some(i as nat),
            None => index_from(t@, c, from as nat) is None,
        },
{
    let mut k: usize = from;
    while k < n
        invariant
            n == t@.len(),
            from <= k <= n,
            index_from(t@, c, from as nat) == index_from(t@, c, k as nat),
        decreases n - k,
    {
        if t.get_char(k) == c {
            return Some(k);
        }
        k = k + 1;
    }
    None
}

/// The value of the first entry of `properties` whose key is `key`.
pub(crate) fn lookup_prop<'a>(properties: &'a Vec<(String, Prop)>, key: &String) -> (r: Option<&'a Prop>)
    ensures
        match r {
            Some(p) => lookup(entries_view(properties@), key@) == Some(p@),
            None => lookup(entries_view(properties@), key@) is None,
        },
{
    let ghost es = entries_view(properties@);
    let mut i: usize = 0;
    assert(es.subrange(0, es.len() as int) =~= es);
    while i < properties.len()
        invariant
            es == entries_view(properties@),
            i <= properties@.len(),
            lookup(es, key@) == lookup(es.subrange(i as int, es.len() as int), key@),
        decreases properties.len() - i,
    {
        let ghost rest = es.subrange(i as int, es.len() as int);
        assert(rest.drop_first() =~= es.subrange(i + 1, es.len() as int));
        if properties[i].0 == *key {
            return Some(&properties[i].1);
        }
        i = i + 1;
    }
    None
}

/// Appends the substitution for the placeholder `{name}` to `out`.
fn push_substitution(out: &mut String, name: &str, properties: &Vec<(String, Prop)>)
    ensures
        final(out)@ == old(out)@ + substitution(name@, entries_view(properties@)),
{
    let key = String::from_str(name);
    match lookup_prop(properties, &key) {
        Some(Prop::Str(s)) => out.append(s.as_str()),
        Some(Prop::Int(n)) => push_int(out, *n),
        _ => out.append("empty"),
    }
}

/// Renders `template` against `properties`: each `{name}` placeholder, a `{`
/// paired with the first `}` after it, is replaced by the string or integer
/// stored under `name`, or by `empty` where there is none. Never fails.
pub fn render_template(template: &str, properties: &Vec<(String, Prop)>) -> (r: String)
    ensures
        r@ == rendered(template@, entries_view(properties@)),
{
    let ghost t = template@;
    let ghost es = entries_view(properties@);
    let n = template.unicode_len();
    let mut out = String::new();
    let mut cur: usize = 0;
    loop
        invariant
            t == template@,
            es == entries_view(properties@),
            n == t.len(),
            cur <= n,
            out@ + rendered_from(t, es, cur as nat) == rendered(t, es),
        decreases n - cur,
    {
        let open = find_char(template, n, '{', cur);
        proof {
            lemma_index_from(t, '{', cur as nat);
        }
        let close = match open {
            Some(o) => {
                proof {
                    lemma_index_from(t, '}', (o + 1) as nat);
                }
                find_char(template, n, '}', o + 1)
            },
            None => None,
        };
        match (open, close) {
            (Some(o), Some(c)) => {
                out.append(template.substring_char(cur, o));
                push_substitution(&mut out, template.substring_char(o + 1, c), properties);
                proof {
                    assert(out@ + rendered_from(t, es, (c + 1) as nat) =~= rendered(t, es));
                }
                cur = c + 1;
            },
            _ => {
                out.append(template.substring_char(cur, n));
                return out;
            },
        }
    }
}

} // verus!
