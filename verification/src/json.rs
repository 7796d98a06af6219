//! The structured values a skill carries through to the wire: YAML values as
//! authored, and the JSON values that canonical actions emit.
//!
//! A carried YAML value is emitted as its JSON conversion (`serde_json::to_value`
//! of the YAML value, `null` when that fails). The conversion succeeds exactly
//! when every mapping key, at any depth, has a string form: a string, a
//! boolean, an integer, or a finite float ([`converts`]).

use vstd::prelude::*;
use crate::quantity::{F64Bits, MarginExpr, QuantityExpr};
use crate::text::str_eq;

verus! {

/// A YAML number.
#[derive(Debug, Clone, Copy, PartialEq, Eq)]
pub enum YamlNumber {
    /// A non-negative integer.
    PosInt(u64),
    /// A negative integer.
    NegInt(i64),
    /// A float.
    Float(F64Bits),
}

/// A YAML value as authored.
#[derive(Debug, PartialEq)]
pub enum YamlValue {
    /// `null` / `~`.
    Null,
    /// A boolean.
    Bool(bool),
    /// A number.
    Number(YamlNumber),
    /// A string.
    String(String),
    /// A sequence.
    Sequence(Vec<YamlValue>),
    /// A mapping, in document order (keys distinct).
    Mapping(Vec<(YamlValue, YamlValue)>),
    /// A tagged value; the tag as written (`!name`).
    Tagged(String, Box<YamlValue>),
}

/// A numeric value the retargeting derives; it is emitted once evaluated.
#[derive(Debug, PartialEq)]
pub enum Derived {
    /// A derived quantity, emitted as its string.
    Quantity(QuantityExpr),
    /// A carry margin ratio, emitted as a number.
    Margin(MarginExpr),
}

/// A JSON value that a canonical action emits.
#[derive(Debug, PartialEq)]
pub enum JsonValue {
    /// `null`.
    Null,
    /// A boolean.
    Bool(bool),
    /// A string.
    String(String),
    /// An array.
    Array(Vec<JsonValue>),
    /// An object with distinct keys (emitted in key order).
    Object(Vec<(String, JsonValue)>),
    /// A carried YAML value, emitted as its JSON conversion.
    Yaml(YamlValue),
    /// A derived numeric value.
    Derived(Derived),
}

/// Whether the double with these bits is finite.
pub open spec fn is_finite_bits(bits: u64) -> bool {
    (bits >> 52u64) & 0x7ffu64 != 0x7ffu64
}

/// Whether a mapping key has a string form in JSON.
pub open spec fn key_has_text(k: YamlValue) -> bool {
    match k {
        YamlValue::String(_) | YamlValue::Bool(_) => true,
        YamlValue::Number(YamlNumber::PosInt(_)) | YamlValue::Number(YamlNumber::NegInt(_)) => true,
        YamlValue::Number(YamlNumber::Float(b)) => is_finite_bits(b.0),
        _ => false,
    }
}

/// Whether the JSON conversion of `v` succeeds.
pub open spec fn converts(v: YamlValue) -> bool
    decreases v,
{
    match v {
        YamlValue::Sequence(items) => forall|i: int|
            0 <= i < items@.len() ==> converts(#[trigger] items@[i]),
        YamlValue::Mapping(entries) => forall|i: int|
            0 <= i < entries@.len() ==> key_has_text(#[trigger] entries@[i].0) && converts(
                entries@[i].1,
            ),
        YamlValue::Tagged(_, inner) => converts(*inner),
        _ => true,
    }
}

/// Whether `v` converts to a JSON object: a mapping, or a tagged value (which
/// becomes the one-entry object `{"!tag": value}`), that converts.
pub open spec fn converts_to_object(v: YamlValue) -> bool {
    (v is Mapping || v is Tagged) && converts(v)
}

/// `v` with its tags removed.
pub open spec fn untag(v: YamlValue) -> YamlValue
    decreases v,
{
    match v {
        YamlValue::Tagged(_, inner) => untag(*inner),
        _ => v,
    }
}

/// The string content of a YAML value (tags ignored), as `Value::as_str`.
pub open spec fn yaml_str(v: YamlValue) -> Option<Seq<char>> {
    match untag(v) {
        YamlValue::String(s) => Some(s@),
        _ => None,
    }
}

/// The boolean content of a YAML value (tags ignored), as `Value::as_bool`.
pub open spec fn yaml_bool(v: YamlValue) -> Option<bool> {
    match untag(v) {
        YamlValue::Bool(b) => Some(b),
        _ => None,
    }
}

/// The value at the string key `key` of a mapping (entries searched from the back).
pub open spec fn entries_get(e: Seq<(YamlValue, YamlValue)>, key: Seq<char>) -> Option<YamlValue>
    decreases e.len(),
{
    if e.len() == 0 {
        None
    } else if e.last().0 matches YamlValue::String(s) && s@ == key {
        Some(e.last().1)
    } else {
        entries_get(e.drop_last(), key)
    }
}

/// The value at string key `key` of a YAML mapping, tags ignored (`Value::get`).
pub open spec fn yaml_get(v: YamlValue, key: Seq<char>) -> Option<YamlValue> {
    match untag(v) {
        YamlValue::Mapping(e) => entries_get(e@, key),
        _ => None,
    }
}

/// The value at key `key` of `v`'s JSON object form, as a YAML value; `None`
/// when `v` does not convert to an object or has no such key. Exact for a key
/// that does not start with `!` and is not the text of a boolean or a number
/// (such keys can only come from a string key).
pub open spec fn object_field(v: YamlValue, key: Seq<char>) -> Option<YamlValue> {
    match v {
        YamlValue::Mapping(e) => if converts(v) {
            entries_get(e@, key)
        } else {
            None
        },
        _ => None,
    }
}

/// Whether a mapping key has a string form.
pub fn key_text_exists(k: &YamlValue) -> (r: bool)
    ensures
        r == key_has_text(*k),
{
    match k {
        YamlValue::String(_) | YamlValue::Bool(_) => true,
        YamlValue::Number(YamlNumber::PosInt(_)) | YamlValue::Number(YamlNumber::NegInt(_)) => true,
        YamlValue::Number(YamlNumber::Float(b)) => (b.0 >> 52u64) & 0x7ffu64 != 0x7ffu64,
        _ => false,
    }
}

/// Whether the JSON conversion of `v` succeeds.
pub fn yaml_converts(v: &YamlValue) -> (r: bool)
    ensures
        r == converts(*v),
    decreases v,
{
    match v {
        YamlValue::Sequence(items) => {
            let mut i: usize = 0;
            while i < items.len()
                invariant
                    0 <= i <= items@.len(),
                    *v == YamlValue::Sequence(*items),
                    forall|j: int| 0 <= j < i ==> converts(#[trigger] items@[j]),
                decreases items@.len() - i,
            {
                proof {
                    assert(decreases_to!(*v => (*v)->Sequence_0));
                    assert(decreases_to!(*items => items@));
                    assert(decreases_to!(items@ => items@[i as int]));
                }
                if !yaml_converts(&items[i]) {
                    assert(!converts(items@[i as int]));
                    assert(converts(*v) == (forall|j: int| 0 <= j < items@.len() ==> converts(#[trigger] items@[j])));
                    return false;
                }
                i = i + 1;
            }
            true
        },
        YamlValue::Mapping(entries) => {
            let mut i: usize = 0;
            while i < entries.len()
                invariant
                    0 <= i <= entries@.len(),
                    *v == YamlValue::Mapping(*entries),
                    forall|j: int|
                        0 <= j < i ==> key_has_text(#[trigger] entries@[j].0) && converts(
                            entries@[j].1,
                        ),
                    forall|j: int| 0 <= j < i ==> converts(#[trigger] entries@[j].1),
                decreases entries@.len() - i,
            {
                proof {
                    assert(decreases_to!(*v => (*v)->Mapping_0));
                    assert(decreases_to!(*entries => entries@));
                    assert(decreases_to!(entries@ => entries@[i as int]));
                    assert(decreases_to!(entries@[i as int] => entries@[i as int].1));
                }
                let k_ok = key_text_exists(&entries[i].0);
                if !k_ok {
                    return false;
                }
                let v_ok = yaml_converts(&entries[i].1);
                if !v_ok {
                    return false;
                }
                assert(key_has_text(entries@[i as int].0) && converts(entries@[i as int].1));
                i = i + 1;
            }
            true
        },
        YamlValue::Tagged(_, inner) => yaml_converts(inner),
        _ => true,
    }
}

/// `v` with its tags removed.
pub fn untag_ref<'a>(v: &'a YamlValue) -> (r: &'a YamlValue)
    ensures
        *r == untag(*v),
    decreases v,
{
    match v {
        YamlValue::Tagged(_, inner) => untag_ref(inner),
        _ => v,
    }
}

/// The string content of a YAML value (`Value::as_str`).
pub fn as_str<'a>(v: &'a YamlValue) -> (r: Option<&'a String>)
    ensures
        match yaml_str(*v) {
            Some(s) => r matches Some(rs) && rs@ == s,
            None => r is None,
        },
{
    match untag_ref(v) {
        YamlValue::String(s) => Some(s),
        _ => None,
    }
}

/// The boolean content of a YAML value (`Value::as_bool`).
pub fn as_bool(v: &YamlValue) -> (r: Option<bool>)
    ensures
        r == yaml_bool(*v),
{
    match untag_ref(v) {
        YamlValue::Bool(b) => Some(*b),
        _ => None,
    }
}

/// The value at string key `key` among mapping entries (searched from the back).
pub fn entries_lookup<'a>(e: &'a Vec<(YamlValue, YamlValue)>, key: &str) -> (r: Option<&'a YamlValue>)
    ensures
        match entries_get(e@, key@) {
            Some(x) => r matches Some(rx) && *rx == x,
            None => r is None,
        },
{
    let mut i = e.len();
    assert(e@.take(i as int) =~= e@);
    while i > 0
        invariant
            0 <= i <= e@.len(),
            entries_get(e@, key@) == entries_get(e@.take(i as int), key@),
        decreases i,
    {
        let ghost t = e@.take(i as int);
        assert(t.last() == e@[i - 1]);
        assert(t.drop_last() =~= e@.take(i - 1));
        if let YamlValue::String(s) = &e[i - 1].0 {
            if str_eq(s.as_str(), key) {
                return Some(&e[i - 1].1);
            }
        }
        i = i - 1;
    }
    None
}

/// The value at string key `key` of a YAML mapping (`Value::get`).
pub fn get<'a>(v: &'a YamlValue, key: &str) -> (r: Option<&'a YamlValue>)
    ensures
        match yaml_get(*v, key@) {
            Some(x) => r matches Some(rx) && *rx == x,
            None => r is None,
        },
{
    match untag_ref(v) {
        YamlValue::Mapping(e) => entries_lookup(e, key),
        _ => None,
    }
}

/// The mathematical view of a YAML value: strings as character sequences.
pub enum YView {
    /// `null`.
    Null,
    /// A boolean.
    Bool(bool),
    /// A number.
    Number(YamlNumber),
    /// A string.
    Str(Seq<char>),
    /// A sequence.
    Items(Seq<YView>),
    /// A mapping's entries in order.
    Entries(Seq<(YView, YView)>),
    /// A tagged value.
    Tagged(Seq<char>, Box<YView>),
}

/// The view of a YAML value.
pub open spec fn yv(v: YamlValue) -> YView
    decreases v, 1nat,
{
    match v {
        YamlValue::Null => YView::Null,
        YamlValue::Bool(b) => YView::Bool(b),
        YamlValue::Number(n) => YView::Number(n),
        YamlValue::String(s) => YView::Str(s@),
        YamlValue::Sequence(items) => {
            proof {
                assert(decreases_to!(v => v->Sequence_0));
                assert(decreases_to!(items => items@));
            }
            YView::Items(yv_items(items@))
        },
        YamlValue::Mapping(es) => {
            proof {
                assert(decreases_to!(v => v->Mapping_0));
                assert(decreases_to!(es => es@));
            }
            YView::Entries(yv_entries(es@))
        },
        YamlValue::Tagged(t, inner) => {
            proof {
                assert(decreases_to!(v => v->Tagged_1));
            }
            YView::Tagged(t@, Box::new(yv(*inner)))
        },
    }
}

/// The views of a sequence of YAML values.
pub open spec fn yv_items(s: Seq<YamlValue>) -> Seq<YView>
    decreases s, 0nat,
{
    if s.len() == 0 {
        Seq::empty()
    } else {
        proof {
            assert(decreases_to!(s => s[s.len() - 1]));
            assert(decreases_to!(s => s.subrange(0, s.len() - 1)));
        }
        yv_items(s.subrange(0, s.len() - 1)).push(yv(s[s.len() - 1]))
    }
}

/// The views of a sequence of mapping entries.
pub open spec fn yv_entries(s: Seq<(YamlValue, YamlValue)>) -> Seq<(YView, YView)>
    decreases s, 0nat,
{
    if s.len() == 0 {
        Seq::empty()
    } else {
        proof {
            assert(decreases_to!(s => s[s.len() - 1]));
            assert(decreases_to!(s[s.len() - 1] => s[s.len() - 1].0));
            assert(decreases_to!(s[s.len() - 1] => s[s.len() - 1].1));
            assert(decreases_to!(s => s.subrange(0, s.len() - 1)));
        }
        yv_entries(s.subrange(0, s.len() - 1)).push(
            (yv(s[s.len() - 1].0), yv(s[s.len() - 1].1)),
        )
    }
}

/// A copy of a YAML value, equal to it in view.
pub fn copy_yaml(v: &YamlValue) -> (r: YamlValue)
    ensures
        yv(r) == yv(*v),
    decreases v,
{
    match v {
        YamlValue::Null => YamlValue::Null,
        YamlValue::Bool(b) => YamlValue::Bool(*b),
        YamlValue::Number(n) => YamlValue::Number(*n),
        YamlValue::String(s) => YamlValue::String(s.clone()),
        YamlValue::Sequence(items) => {
            let mut out: Vec<YamlValue> = Vec::new();
            let mut i: usize = 0;
            while i < items.len()
                invariant
                    0 <= i <= items@.len(),
                    out@.len() == i,
                    *v == YamlValue::Sequence(*items),
                    yv_items(out@) == yv_items(items@.subrange(0, i as int)),
                decreases items@.len() - i,
            {
                proof {
                    assert(decreases_to!(*v => (*v)->Sequence_0));
                    assert(decreases_to!(*items => items@));
                    assert(decreases_to!(items@ => items@[i as int]));
                }
                let c = copy_yaml(&items[i]);
                let ghost before = out@;
                out.push(c);
                proof {
                    let t = items@.subrange(0, i + 1);
                    assert(t.subrange(0, t.len() - 1) =~= items@.subrange(0, i as int));
                    assert(out@.subrange(0, out@.len() - 1) =~= before);
                }
                i = i + 1;
            }
            assert(items@.subrange(0, i as int) =~= items@);
            YamlValue::Sequence(out)
        },
        YamlValue::Mapping(es) => {
            let mut out: Vec<(YamlValue, YamlValue)> = Vec::new();
            let mut i: usize = 0;
            while i < es.len()
                invariant
                    0 <= i <= es@.len(),
                    out@.len() == i,
                    *v == YamlValue::Mapping(*es),
                    yv_entries(out@) == yv_entries(es@.subrange(0, i as int)),
                decreases es@.len() - i,
            {
                proof {
                    assert(decreases_to!(*v => (*v)->Mapping_0));
                    assert(decreases_to!(*es => es@));
                    assert(decreases_to!(es@ => es@[i as int]));
                    assert(decreases_to!(es@[i as int] => es@[i as int].0));
                    assert(decreases_to!(es@[i as int] => es@[i as int].1));
                }
                let k = copy_yaml(&es[i].0);
                let x = copy_yaml(&es[i].1);
                let ghost before = out@;
                out.push((k, x));
                proof {
                    let t = es@.subrange(0, i + 1);
                    assert(t.subrange(0, t.len() - 1) =~= es@.subrange(0, i as int));
                    assert(out@.subrange(0, out@.len() - 1) =~= before);
                }
                i = i + 1;
            }
            assert(es@.subrange(0, i as int) =~= es@);
            YamlValue::Mapping(out)
        },
        YamlValue::Tagged(t, inner) => {
            let c = copy_yaml(inner);
            YamlValue::Tagged(t.clone(), Box::new(c))
        },
    }
}

/// The mathematical view of a JSON value: strings as character sequences.
pub enum JView {
    /// `null`.
    Null,
    /// A boolean.
    Bool(bool),
    /// A string.
    Str(Seq<char>),
    /// An array.
    Arr(Seq<JView>),
    /// An object's entries in order.
    Obj(Seq<(Seq<char>, JView)>),
    /// A carried YAML value.
    Yaml(YView),
    /// A derived numeric value.
    Derived(Derived),
}

/// The view of a JSON value.
pub open spec fn jv(v: JsonValue) -> JView
    decreases v, 1nat,
{
    match v {
        JsonValue::Null => JView::Null,
        JsonValue::Bool(b) => JView::Bool(b),
        JsonValue::String(s) => JView::Str(s@),
        JsonValue::Array(items) => {
            proof {
                assert(decreases_to!(v => v->Array_0));
                assert(decreases_to!(items => items@));
            }
            JView::Arr(jv_items(items@))
        },
        JsonValue::Object(es) => {
            proof {
                assert(decreases_to!(v => v->Object_0));
                assert(decreases_to!(es => es@));
            }
            JView::Obj(jv_entries(es@))
        },
        JsonValue::Yaml(y) => JView::Yaml(yv(y)),
        JsonValue::Derived(d) => JView::Derived(d),
    }
}

/// The views of a sequence of JSON values.
pub open spec fn jv_items(s: Seq<JsonValue>) -> Seq<JView>
    decreases s, 0nat,
{
    if s.len() == 0 {
        Seq::empty()
    } else {
        proof {
            assert(decreases_to!(s => s[s.len() - 1]));
            assert(decreases_to!(s => s.subrange(0, s.len() - 1)));
        }
        jv_items(s.subrange(0, s.len() - 1)).push(jv(s[s.len() - 1]))
    }
}

/// The views of a sequence of JSON values, element by element.
pub proof fn lemma_jv_items_index(s: Seq<JsonValue>)
    ensures
        jv_items(s).len() == s.len(),
        forall|j: int| 0 <= j < s.len() ==> #[trigger] jv_items(s)[j] == jv(s[j]),
    decreases s.len(),
{
    if s.len() > 0 {
        lemma_jv_items_index(s.subrange(0, s.len() - 1));
    }
}

/// The views of a sequence of object entries.
pub open spec fn jv_entries(s: Seq<(String, JsonValue)>) -> Seq<(Seq<char>, JView)>
    decreases s, 0nat,
{
    if s.len() == 0 {
        Seq::empty()
    } else {
        proof {
            assert(decreases_to!(s => s[s.len() - 1]));
            assert(decreases_to!(s[s.len() - 1] => s[s.len() - 1].1));
            assert(decreases_to!(s => s.subrange(0, s.len() - 1)));
        }
        jv_entries(s.subrange(0, s.len() - 1)).push((s[s.len() - 1].0@, jv(s[s.len() - 1].1)))
    }
}

/// Append the entry `(k, v)` to a JSON object's entries.
pub fn obj_push(o: &mut Vec<(String, JsonValue)>, k: &str, v: JsonValue)
    ensures
        jv_entries(final(o)@) == jv_entries(old(o)@).push((k@, jv(v))),
{
    let ghost before = o@;
    o.push((String::from_str(k), v));
    proof {
        let s = o@;
        assert(s.subrange(0, s.len() - 1) =~= before);
    }
}

/// A JSON value carrying a YAML value as authored.
pub fn yaml_json(v: &YamlValue) -> (r: JsonValue)
    ensures
        jv(r) == JView::Yaml(yv(*v)),
{
    JsonValue::Yaml(copy_yaml(v))
}

/// A JSON string value.
pub fn jstr(s: &str) -> (r: JsonValue)
    ensures
        jv(r) == JView::Str(s@),
{
    JsonValue::String(String::from_str(s))
}

} // verus!
