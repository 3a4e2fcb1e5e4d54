//! JSON values as plain data, with parsing and printing done by `serde_json`.
//!
//! [`Json`] is the value that the rest of the crate works on; its view,
//! [`JsonV`], is the mathematical value that contracts speak of. Text is turned
//! into a [`Json`] by [`parse_json`] and back by [`render_json`].

use vstd::prelude::*;

use crate::text::{opt_view, string_is};

verus! {

/// The declaration of `serde_json::Value`, a parsed JSON document.
#[verifier::external_type_specification]
#[verifier::external_body]
pub struct ExValue(serde_json::Value);

/// The declaration of `serde_json::Number`, a JSON number.
#[verifier::external_type_specification]
#[verifier::external_body]
pub struct ExNumber(serde_json::Number);

/// A JSON number: an unsigned integer, or any other number as `serde_json` holds it.
#[derive(Debug, PartialEq)]
pub enum Num {
    Unsigned(u64),
    Other(serde_json::Number),
}

/// A JSON value. Of members with the same name in an object, the last one counts.
#[derive(Debug, PartialEq)]
pub enum Json {
    Null,
    Bool(bool),
    Num(Num),
    Str(String),
    Arr(Vec<Json>),
    Obj(Vec<(String, Json)>),
}

/// What `serde_json::Number::as_u64` gives for a number.
pub uninterp spec fn number_u64(n: serde_json::Number) -> Option<u64>;

/// What a number is, whichever way it is held.
pub open spec fn num_view(n: Num) -> Num {
    match n {
        Num::Unsigned(u) => Num::Unsigned(u),
        Num::Other(x) => match number_u64(x) {
            Some(u) => Num::Unsigned(u),
            None => Num::Other(x),
        },
    }
}

/// What a JSON value is, mathematically.
pub enum JsonV {
    Null,
    Bool(bool),
    Num(Num),
    Str(Seq<char>),
    Arr(Seq<JsonV>),
    Obj(Map<Seq<char>, JsonV>),
}

/// The mathematical value of `j`.
pub open spec fn json_view(j: Json) -> JsonV
    decreases j, 0nat,
{
    match j {
        Json::Null => JsonV::Null,
        Json::Bool(b) => JsonV::Bool(b),
        Json::Num(n) => JsonV::Num(num_view(n)),
        Json::Str(s) => JsonV::Str(s@),
        Json::Arr(v) => JsonV::Arr(
            Seq::new(
                v@.len(),
                |i: int|
                    if 0 <= i < v@.len() {
                        json_view(v@[i])
                    } else {
                        JsonV::Null
                    },
            ),
        ),
        Json::Obj(v) => JsonV::Obj(members_view(v@, v@.len())),
    }
}

/// The mathematical value of the first `n` members of an object.
pub open spec fn members_view(s: Seq<(String, Json)>, n: nat) -> Map<Seq<char>, JsonV>
    decreases s, n,
{
    if n == 0 || n > s.len() {
        Map::empty()
    } else {
        members_view(s, (n - 1) as nat).insert(s[n - 1].0@, json_view(s[n - 1].1))
    }
}

/// The mathematical values of the elements of an array.
pub open spec fn items_view(s: Seq<Json>) -> Seq<JsonV> {
    s.map_values(|j: Json| j@)
}

impl View for Json {
    type V = JsonV;

    open spec fn view(&self) -> JsonV {
        json_view(*self)
    }
}

/// What a `serde_json::Value` holds: a JSON value, its objects as maps.
pub uninterp spec fn json_of(v: serde_json::Value) -> JsonV;

/// What `serde_json::from_str` makes of a text: the value, or the text of its error.
pub uninterp spec fn json_parse(text: Seq<char>) -> Result<JsonV, Seq<char>>;

/// What `serde_json::to_string` prints for a value, if it succeeds.
pub uninterp spec fn json_text(v: JsonV) -> Option<Seq<char>>;

/// One level of a `serde_json::Value`.
pub enum JsonNode {
    Null,
    Bool(bool),
    Num(Num),
    Str(String),
    Arr(Vec<serde_json::Value>),
    Obj(Vec<(String, serde_json::Value)>),
}

/// The mathematical value of the first `n` members of one level.
pub open spec fn node_members(s: Seq<(String, serde_json::Value)>, n: nat) -> Map<Seq<char>, JsonV>
    decreases n,
{
    if n == 0 || n > s.len() {
        Map::empty()
    } else {
        node_members(s, (n - 1) as nat).insert(s[n - 1].0@, json_of(s[n - 1].1))
    }
}

/// The mathematical value of one level.
pub open spec fn node_view(n: JsonNode) -> JsonV {
    match n {
        JsonNode::Null => JsonV::Null,
        JsonNode::Bool(b) => JsonV::Bool(b),
        JsonNode::Num(x) => JsonV::Num(num_view(x)),
        JsonNode::Str(s) => JsonV::Str(s@),
        JsonNode::Arr(v) => JsonV::Arr(v@.map_values(|x: serde_json::Value| json_of(x))),
        JsonNode::Obj(v) => JsonV::Obj(node_members(v@, v@.len())),
    }
}

/// Whether no two members of one level have the same name.
pub open spec fn distinct_names(s: Seq<(String, serde_json::Value)>) -> bool {
    forall|i: int, j: int| 0 <= i < j < s.len() ==> (#[trigger] s[i]).0@ != (#[trigger] s[j]).0@
}

/// Calls `serde_json::from_str` for a `Value`. The result is named
/// [`json_parse`]; of an error its text is kept.
#[verifier::external_body]
fn parse_value(text: &str) -> (r: Result<serde_json::Value, String>)
    ensures
        match r {
            Ok(v) => json_parse(text@) == Ok::<JsonV, Seq<char>>(json_of(v)),
            Err(e) => json_parse(text@) == Err::<JsonV, Seq<char>>(e@),
        },
{
    serde_json::from_str::<serde_json::Value>(text).map_err(|e| e.to_string())
}

/// Calls `serde_json::to_string` for a `Value`. The result is named [`json_text`].
#[verifier::external_body]
fn render_value(v: &serde_json::Value) -> (r: Option<String>)
    ensures
        opt_view(r) == json_text(json_of(*v)),
{
    serde_json::to_string(v).ok()
}

/// Takes one level of a `serde_json::Value` apart: the variants of the enum one
/// by one, the members of an object under distinct names.
#[verifier::external_body]
fn open_value(v: serde_json::Value) -> (n: JsonNode)
    ensures
        node_view(n) == json_of(v),
        n matches JsonNode::Obj(members) ==> distinct_names(members@),
{
    match v {
        serde_json::Value::Null => JsonNode::Null,
        serde_json::Value::Bool(b) => JsonNode::Bool(b),
        serde_json::Value::Number(n) => JsonNode::Num(Num::Other(n)),
        serde_json::Value::String(s) => JsonNode::Str(s),
        serde_json::Value::Array(items) => JsonNode::Arr(items),
        serde_json::Value::Object(map) => JsonNode::Obj(map.into_iter().collect()),
    }
}

/// Makes a `serde_json::Value` of one level, the reverse of taking it apart.
#[verifier::external_body]
fn close_value(n: JsonNode) -> (v: serde_json::Value)
    requires
        n matches JsonNode::Obj(members) ==> distinct_names(members@),
    ensures
        json_of(v) == node_view(n),
{
    match n {
        JsonNode::Null => serde_json::Value::Null,
        JsonNode::Bool(b) => serde_json::Value::Bool(b),
        JsonNode::Num(Num::Unsigned(u)) => serde_json::Value::Number(u.into()),
        JsonNode::Num(Num::Other(x)) => serde_json::Value::Number(x),
        JsonNode::Str(s) => serde_json::Value::String(s),
        JsonNode::Arr(items) => serde_json::Value::Array(items),
        JsonNode::Obj(members) => serde_json::Value::Object(members.into_iter().collect()),
    }
}

/// `serde_json::Number::as_u64` depends on the number alone; its result is named
/// [`number_u64`].
pub assume_specification[ serde_json::Number::as_u64 ](n: &serde_json::Number) -> (r: Option<u64>)
    ensures
        r == number_u64(*n),
;

/// A clone of a `serde_json::Number` is the same number.
pub assume_specification[ <serde_json::Number as Clone>::clone ](n: &serde_json::Number) -> (r:
    serde_json::Number)
    ensures
        r == *n,
;

proof fn lemma_node_members_dom(s: Seq<(String, serde_json::Value)>, n: nat)
    requires
        n <= s.len(),
    ensures
        node_members(s, n).dom().finite(),
        forall|k: Seq<char>| #[trigger]
            node_members(s, n).dom().contains(k) <==> exists|i: int| 0 <= i < n && (#[trigger] s[i]).0@ == k,
        distinct_names(s) ==> forall|i: int| 0 <= i < n ==> node_members(s, n)[(#[trigger] s[i]).0@] == json_of(s[i].1),
    decreases n,
{
    if n > 0 {
        lemma_node_members_dom(s, (n - 1) as nat);
        let m = node_members(s, (n - 1) as nat);
        assert forall|k: Seq<char>| #[trigger] node_members(s, n).dom().contains(k) <==> exists|i: int|
            0 <= i < n && (#[trigger] s[i]).0@ == k by {
            if exists|i: int| 0 <= i < n && (#[trigger] s[i]).0@ == k {
                let i = choose|i: int| 0 <= i < n && (#[trigger] s[i]).0@ == k;
                if i < n - 1 {
                    assert(m.dom().contains(k));
                }
            }
            if node_members(s, n).dom().contains(k) {
                if k == s[n - 1].0@ {
                } else {
                    assert(m.dom().contains(k));
                }
            }
        }
    }
}

/// The members after `n` pairs when they equal those of one level.
proof fn lemma_members_match(a: Seq<(String, Json)>, b: Seq<(String, serde_json::Value)>, n: nat)
    requires
        n <= a.len(),
        n <= b.len(),
        forall|i: int| 0 <= i < n ==> (#[trigger] a[i]).0@ == b[i].0@ && a[i].1@ == json_of(b[i].1),
    ensures
        members_view(a, n) == node_members(b, n),
    decreases n,
{
    if n > 0 {
        lemma_members_match(a, b, (n - 1) as nat);
        assert(a[n - 1].0@ == b[n - 1].0@);
    }
}

proof fn lemma_members_prefix(a: Seq<(String, Json)>, b: Seq<(String, Json)>, n: nat)
    requires
        n <= a.len(),
        n <= b.len(),
        forall|i: int| 0 <= i < n ==> (#[trigger] a[i]) == b[i],
    ensures
        members_view(a, n) == members_view(b, n),
    decreases n,
{
    if n > 0 {
        lemma_members_prefix(a, b, (n - 1) as nat);
        assert(a[n - 1] == b[n - 1]);
    }
}

/// Where a name stands last among the first `n` members, the map holds that member's value.
proof fn lemma_members_last(s: Seq<(String, Json)>, n: nat, key: Seq<char>, at: int)
    requires
        n <= s.len(),
        0 <= at < n,
        s[at].0@ == key,
        forall|i: int| at < i < n ==> (#[trigger] s[i]).0@ != key,
    ensures
        members_view(s, n).dom().contains(key),
        members_view(s, n)[key] == s[at].1@,
    decreases n,
{
    if at < n - 1 {
        assert(s[n - 1].0@ != key);
        lemma_members_last(s, (n - 1) as nat, key, at);
    }
}

proof fn lemma_members_absent(s: Seq<(String, Json)>, n: nat, key: Seq<char>)
    requires
        n <= s.len(),
        forall|i: int| 0 <= i < n ==> (#[trigger] s[i]).0@ != key,
    ensures
        !members_view(s, n).dom().contains(key),
    decreases n,
{
    if n > 0 {
        assert(s[n - 1].0@ != key);
        lemma_members_absent(s, (n - 1) as nat, key);
    }
}

proof fn lemma_members_present(s: Seq<(String, Json)>, n: nat, at: int)
    requires
        n <= s.len(),
        0 <= at < n,
    ensures
        members_view(s, n).dom().contains(s[at].0@),
    decreases n,
{
    if at < n - 1 {
        lemma_members_present(s, (n - 1) as nat, at);
    }
}

proof fn lemma_item_smaller(j: Json, v: Vec<Json>, i: int)
    requires
        j == Json::Arr(v),
        0 <= i < v@.len(),
    ensures
        decreases_to!(j => v@[i]),
{
    match j {
        Json::Arr(w) => {
            assert(decreases_to!(j => w));
            assert(decreases_to!(w => w@));
            assert(decreases_to!(w@ => w@[i]));
        },
        _ => {},
    }
}

proof fn lemma_member_smaller(j: Json, v: Vec<(String, Json)>, i: int)
    requires
        j == Json::Obj(v),
        0 <= i < v@.len(),
    ensures
        decreases_to!(j => v@[i].1),
{
    match j {
        Json::Obj(w) => {
            assert(decreases_to!(j => w));
            assert(decreases_to!(w => w@));
            assert(decreases_to!(w@ => w@[i]));
            assert(decreases_to!(w@[i] => w@[i].1));
        },
        _ => {},
    }
}

proof fn lemma_item_view_smaller(v: JsonV, s: Seq<JsonV>, i: int)
    requires
        v == JsonV::Arr(s),
        0 <= i < s.len(),
    ensures
        decreases_to!(v => s[i]),
{
    match v {
        JsonV::Arr(t) => {
            assert(decreases_to!(v => t));
            assert(decreases_to!(t => t[i]));
        },
        _ => {},
    }
}

proof fn lemma_member_view_smaller(v: JsonV, m: Map<Seq<char>, JsonV>, key: Seq<char>)
    requires
        v == JsonV::Obj(m),
        m.dom().finite(),
        m.dom().contains(key),
    ensures
        decreases_to!(v => m[key]),
{
    match v {
        JsonV::Obj(t) => {
            assert(decreases_to!(v => t));
            assert(decreases_to!(t => t[key]));
        },
        _ => {},
    }
}

/// A number as plain data: an unsigned integer where it is one.
fn plain_num(n: Num) -> (r: Num)
    ensures
        r == num_view(n),
{
    match n {
        Num::Unsigned(u) => Num::Unsigned(u),
        Num::Other(x) => match x.as_u64() {
            Some(u) => Num::Unsigned(u),
            None => Num::Other(x),
        },
    }
}

/// The plain data that a `serde_json::Value` holds.
fn from_value(v: serde_json::Value) -> (r: Json)
    ensures
        r@ == json_of(v),
    decreases json_of(v),
{
    let ghost whole = json_of(v);
    match open_value(v) {
        JsonNode::Null => Json::Null,
        JsonNode::Bool(b) => Json::Bool(b),
        JsonNode::Num(n) => Json::Num(plain_num(n)),
        JsonNode::Str(s) => Json::Str(s),
        JsonNode::Arr(items) => {
            let ghost all = items@;
            let mut out: Vec<Json> = Vec::new();
            for item in it: items
                invariant
                    it.seq() == all,
                    whole == JsonV::Arr(all.map_values(|x: serde_json::Value| json_of(x))),
                    whole == json_of(v),
                    out@.len() == it.index(),
                    forall|i: int| 0 <= i < out@.len() ==> (#[trigger] out@[i])@ == json_of(all[i]),
            {
                proof {
                    let views = all.map_values(|x: serde_json::Value| json_of(x));
                    assert(views[it.index() as int] == json_of(item));
                    lemma_item_view_smaller(whole, views, it.index() as int);
                }
                out.push(from_value(item));
            }
            proof {
                let views = all.map_values(|x: serde_json::Value| json_of(x));
                assert(json_view(Json::Arr(out))->Arr_0 =~= views);
            }
            Json::Arr(out)
        },
        JsonNode::Obj(members) => {
            let ghost all = members@;
            let mut out: Vec<(String, Json)> = Vec::new();
            proof {
                lemma_node_members_dom(all, all.len());
            }
            for member in it: members
                invariant
                    it.seq() == all,
                    whole == JsonV::Obj(node_members(all, all.len())),
                    whole == json_of(v),
                    distinct_names(all),
                    node_members(all, all.len()).dom().finite(),
                    forall|k: Seq<char>| #[trigger]
                        node_members(all, all.len()).dom().contains(k) <==> exists|i: int|
                            0 <= i < all.len() && (#[trigger] all[i]).0@ == k,
                    forall|i: int|
                        0 <= i < all.len() ==> node_members(all, all.len())[(#[trigger] all[i]).0@]
                            == json_of(all[i].1),
                    out@.len() == it.index(),
                    forall|i: int|
                        0 <= i < out@.len() ==> (#[trigger] out@[i]).0@ == all[i].0@ && out@[i].1@
                            == json_of(all[i].1),
            {
                proof {
                    let m = node_members(all, all.len());
                    let key = all[it.index() as int].0@;
                    assert(m.dom().contains(key));
                    assert(m[key] == json_of(member.1));
                    lemma_member_view_smaller(whole, m, key);
                }
                let (name, value) = member;
                out.push((name, from_value(value)));
            }
            proof {
                lemma_members_match(out@, all, all.len());
            }
            Json::Obj(out)
        },
    }
}

proof fn lemma_node_members_update(
    s: Seq<(String, serde_json::Value)>,
    t: Seq<(String, serde_json::Value)>,
    at: int,
    n: nat,
)
    requires
        n <= s.len(),
        s.len() == t.len(),
        distinct_names(s),
        0 <= at < s.len(),
        s[at].0@ == t[at].0@,
        forall|i: int| 0 <= i < s.len() && i != at ==> (#[trigger] s[i]) == t[i],
    ensures
        at >= n ==> node_members(t, n) == node_members(s, n),
        at < n ==> node_members(t, n) =~= node_members(s, n).insert(s[at].0@, json_of(t[at].1)),
    decreases n,
{
    if n > 0 {
        lemma_node_members_update(s, t, at, (n - 1) as nat);
        if at == n - 1 {
        } else if at < n - 1 {
            assert(s[n - 1] == t[n - 1]);
            assert(s[at].0@ != s[n - 1].0@);
        } else {
            assert(s[n - 1] == t[n - 1]);
        }
    }
}

proof fn lemma_node_members_push(s: Seq<(String, serde_json::Value)>, x: (String, serde_json::Value), n: nat)
    requires
        n <= s.len(),
    ensures
        node_members(s.push(x), n) == node_members(s, n),
    decreases n,
{
    if n > 0 {
        lemma_node_members_push(s, x, (n - 1) as nat);
        assert(s.push(x)[n - 1] == s[n - 1]);
    }
}

/// Sets one member: in place where the name is there, at the end where it is not.
fn set_value(members: &mut Vec<(String, serde_json::Value)>, name: String, value: serde_json::Value)
    requires
        distinct_names(old(members)@),
    ensures
        distinct_names(final(members)@),
        node_members(final(members)@, final(members)@.len()) == node_members(
            old(members)@,
            old(members)@.len(),
        ).insert(name@, json_of(value)),
{
    let ghost before = members@;
    let mut i: usize = 0;
    while i < members.len()
        invariant
            members@ == before,
            before == old(members)@,
            i <= members@.len(),
            distinct_names(members@),
            forall|j: int| 0 <= j < i ==> (#[trigger] members@[j]).0@ != name@,
        decreases members@.len() - i,
    {
        if string_is(&members[i].0, name.as_str()) {
            let ghost at = i as int;
            let ghost pair = (name, value);
            assert(before[at].0@ == name@);
            members[i] = (name, value);
            proof {
                assert(members@ == before.update(at, pair));
                assert(members@[at] == pair);
                assert forall|a: int, b: int| 0 <= a < b < members@.len() implies (#[trigger] members@[a]).0@
                    != (#[trigger] members@[b]).0@ by {
                    assert(before[a].0@ != before[b].0@);
                }
                lemma_node_members_update(before, members@, at, before.len());
            }
            return;
        }
        i = i + 1;
    }
    let ghost pair = (name, value);
    members.push((name, value));
    proof {
        lemma_node_members_push(before, pair, before.len());
        assert(members@ == before.push(pair));
        assert forall|a: int, b: int| 0 <= a < b < members@.len() implies (#[trigger] members@[a]).0@ != (
        #[trigger] members@[b]).0@ by {
            if b < before.len() {
                assert(before[a].0@ != before[b].0@);
            } else {
                assert(before[a].0@ != name@);
            }
        }
    }
}

/// The `serde_json::Value` that holds `j`.
fn to_value(j: &Json) -> (r: serde_json::Value)
    ensures
        json_of(r) == j@,
    decreases *j,
{
    match j {
        Json::Null => close_value(JsonNode::Null),
        Json::Bool(b) => close_value(JsonNode::Bool(*b)),
        Json::Num(n) => close_value(JsonNode::Num(dup_num(n))),
        Json::Str(s) => close_value(JsonNode::Str(s.clone())),
        Json::Arr(items) => {
            let mut out: Vec<serde_json::Value> = Vec::new();
            let mut i: usize = 0;
            while i < items.len()
                invariant
                    *j == Json::Arr(*items),
                    i <= items@.len(),
                    out@.len() == i,
                    forall|k: int| 0 <= k < i ==> json_of(#[trigger] out@[k]) == items@[k]@,
                decreases items@.len() - i,
            {
                proof {
                    lemma_item_smaller(*j, *items, i as int);
                }
                out.push(to_value(&items[i]));
                i = i + 1;
            }
            proof {
                assert(out@.map_values(|x: serde_json::Value| json_of(x)) =~= j@->Arr_0);
            }
            close_value(JsonNode::Arr(out))
        },
        Json::Obj(members) => {
            let mut out: Vec<(String, serde_json::Value)> = Vec::new();
            let mut i: usize = 0;
            while i < members.len()
                invariant
                    *j == Json::Obj(*members),
                    i <= members@.len(),
                    distinct_names(out@),
                    node_members(out@, out@.len()) == members_view(members@, i as nat),
                decreases members@.len() - i,
            {
                proof {
                    lemma_member_smaller(*j, *members, i as int);
                }
                let value = to_value(&members[i].1);
                set_value(&mut out, members[i].0.clone(), value);
                i = i + 1;
            }
            close_value(JsonNode::Obj(out))
        },
    }
}

fn dup_num(n: &Num) -> (r: Num)
    ensures
        r == *n,
{
    match n {
        Num::Unsigned(u) => Num::Unsigned(*u),
        Num::Other(x) => Num::Other(x.clone()),
    }
}

/// Reads a JSON text. An error carries the parser's message.
pub fn parse_json(text: &str) -> (r: Result<Json, String>)
    ensures
        match r {
            Ok(j) => json_parse(text@) == Ok::<JsonV, Seq<char>>(j@),
            Err(e) => json_parse(text@) == Err::<JsonV, Seq<char>>(e@),
        },
{
    match parse_value(text) {
        Ok(v) => Ok(from_value(v)),
        Err(e) => Err(e),
    }
}

/// Prints a JSON value, if the printer succeeds.
pub fn render_json(j: &Json) -> (r: Option<String>)
    ensures
        opt_view(r) == json_text(j@),
{
    let v = to_value(j);
    render_value(&v)
}

/// The member `key` of an object.
pub open spec fn member(v: JsonV, key: Seq<char>) -> Option<JsonV> {
    match v {
        JsonV::Obj(m) => if m.dom().contains(key) {
            Some(m[key])
        } else {
            None
        },
        _ => None,
    }
}

/// The text of a string value.
pub open spec fn str_of(v: JsonV) -> Option<Seq<char>> {
    match v {
        JsonV::Str(s) => Some(s),
        _ => None,
    }
}

/// The text of the string member `key`.
pub open spec fn str_member(v: JsonV, key: Seq<char>) -> Option<Seq<char>> {
    match member(v, key) {
        Some(m) => str_of(m),
        None => None,
    }
}

/// The elements of the array member `key`.
pub open spec fn arr_member(v: JsonV, key: Seq<char>) -> Option<Seq<JsonV>> {
    match member(v, key) {
        Some(JsonV::Arr(s)) => Some(s),
        _ => None,
    }
}

/// An object with two members.
pub open spec fn obj2(k1: Seq<char>, v1: JsonV, k2: Seq<char>, v2: JsonV) -> JsonV {
    JsonV::Obj(Map::empty().insert(k1, v1).insert(k2, v2))
}

/// Makes an object with two members.
pub fn make_obj2(k1: &str, v1: Json, k2: &str, v2: Json) -> (r: Json)
    ensures
        r@ == obj2(k1@, v1@, k2@, v2@),
{
    Json::object().with(k1, v1).with(k2, v2)
}

/// A message of a role with a text.
pub open spec fn text_message(role: Seq<char>, content: Seq<char>) -> JsonV {
    obj2("role"@, JsonV::Str(role), "content"@, JsonV::Str(content))
}

/// Makes a message of a role with a text.
pub fn make_text_message(role: &str, content: &str) -> (r: Json)
    ensures
        r@ == text_message(role@, content@),
{
    make_obj2("role", Json::text(role), "content", Json::text(content))
}

impl Json {
    /// The member `key`, where this is an object that has it.
    pub fn get(&self, key: &str) -> (r: Option<&Json>)
        ensures
            match r {
                Some(j) => member(self@, key@) == Some(j@),
                None => member(self@, key@) is None,
            },
            r matches Some(j) ==> decreases_to!(*self => *j),
    {
        match self {
            Json::Obj(members) => {
                let mut i: usize = members.len();
                while i > 0
                    invariant
                        *self == Json::Obj(*members),
                        i <= members@.len(),
                        forall|k: int| i <= k < members@.len() ==> (#[trigger] members@[k]).0@ != key@,
                    decreases i,
                {
                    i = i - 1;
                    if string_is(&members[i].0, key) {
                        proof {
                            lemma_members_last(members@, members@.len(), key@, i as int);
                            lemma_member_smaller(*self, *members, i as int);
                        }
                        return Some(&members[i].1);
                    }
                }
                proof {
                    lemma_members_absent(members@, members@.len(), key@);
                }
                None
            },
            _ => None,
        }
    }

    /// The member `key`, where this is an object with no other member.
    pub fn only_member(&self, key: &str) -> (r: Option<&Json>)
        ensures
            match r {
                Some(j) => self@ is Obj && self@->Obj_0.dom() == set![key@] && self@->Obj_0[key@] == j@,
                None => !(self@ is Obj && self@->Obj_0.dom() == set![key@]),
            },
    {
        match self {
            Json::Obj(members) => {
                let mut i: usize = 0;
                while i < members.len()
                    invariant
                        *self == Json::Obj(*members),
                        i <= members@.len(),
                        forall|k: int| 0 <= k < i ==> (#[trigger] members@[k]).0@ == key@,
                    decreases members@.len() - i,
                {
                    if !string_is(&members[i].0, key) {
                        proof {
                            lemma_members_present(members@, members@.len(), i as int);
                            assert(!set![key@].contains(members@[i as int].0@));
                        }
                        return None;
                    }
                    i = i + 1;
                }
                proof {
                    assert forall|name: Seq<char>| name != key@ implies !self@->Obj_0.dom().contains(name) by {
                        lemma_members_absent(members@, members@.len(), name);
                    }
                    if self@->Obj_0.dom().contains(key@) {
                        assert(self@->Obj_0.dom() =~= set![key@]);
                    } else {
                        assert(set![key@].contains(key@));
                    }
                }
                self.get(key)
            },
            _ => None,
        }
    }

    /// The text, where this is a string.
    pub fn as_str(&self) -> (r: Option<&str>)
        ensures
            match r {
                Some(s) => str_of(self@) == Some(s@),
                None => str_of(self@) is None,
            },
    {
        match self {
            Json::Str(s) => Some(s.as_str()),
            _ => None,
        }
    }

    /// The elements, where this is an array.
    pub fn as_array(&self) -> (r: Option<&Vec<Json>>)
        ensures
            match r {
                Some(v) => self@ == JsonV::Arr(items_view(v@)) && *self == Json::Arr(*v),
                None => !(self@ is Arr),
            },
    {
        match self {
            Json::Arr(v) => {
                assert(self@->Arr_0 =~= items_view(v@));
                Some(v)
            },
            _ => None,
        }
    }

    /// The integer that this is, if it is an unsigned one.
    pub fn as_u64(&self) -> (r: Option<u64>)
        ensures
            r == (match self@ {
                JsonV::Num(Num::Unsigned(u)) => Some(u),
                _ => None,
            }),
    {
        match self {
            Json::Num(Num::Unsigned(u)) => Some(*u),
            Json::Num(Num::Other(x)) => x.as_u64(),
            _ => None,
        }
    }

    /// The truth value, where this is a boolean.
    pub fn as_bool(&self) -> (r: Option<bool>)
        ensures
            r == (match self@ {
                JsonV::Bool(b) => Some(b),
                _ => None,
            }),
    {
        match self {
            Json::Bool(b) => Some(*b),
            _ => None,
        }
    }

    /// Whether this is an object.
    pub fn is_object(&self) -> (r: bool)
        ensures
            r == (self@ is Obj),
    {
        match self {
            Json::Obj(_) => true,
            _ => false,
        }
    }

    /// Whether this is an array.
    pub fn is_array(&self) -> (r: bool)
        ensures
            r == (self@ is Arr),
    {
        match self {
            Json::Arr(_) => true,
            _ => false,
        }
    }

    /// The text of the string member `key`.
    pub fn get_str(&self, key: &str) -> (r: Option<&str>)
        ensures
            match r {
                Some(s) => str_member(self@, key@) == Some(s@),
                None => str_member(self@, key@) is None,
            },
    {
        match self.get(key) {
            Some(j) => j.as_str(),
            None => None,
        }
    }

    /// The elements of the array member `key`.
    pub fn get_array(&self, key: &str) -> (r: Option<&Vec<Json>>)
        ensures
            match r {
                Some(v) => arr_member(self@, key@) == Some(items_view(v@)),
                None => arr_member(self@, key@) is None,
            },
    {
        match self.get(key) {
            Some(j) => j.as_array(),
            None => None,
        }
    }

    /// A string value.
    pub fn text(s: &str) -> (r: Json)
        ensures
            r@ == JsonV::Str(s@),
    {
        Json::Str(s.to_owned())
    }

    /// An unsigned integer value.
    pub fn unsigned(n: u64) -> (r: Json)
        ensures
            r@ == JsonV::Num(Num::Unsigned(n)),
    {
        Json::Num(Num::Unsigned(n))
    }

    /// An array of the given elements.
    pub fn array(items: Vec<Json>) -> (r: Json)
        ensures
            r@ == JsonV::Arr(items_view(items@)),
    {
        let r = Json::Arr(items);
        assert(r@->Arr_0 =~= items_view(items@));
        r
    }

    /// The object without members.
    pub fn object() -> (r: Json)
        ensures
            r@ == JsonV::Obj(Map::empty()),
    {
        let members: Vec<(String, Json)> = Vec::new();
        assert(members_view(members@, 0) == Map::<Seq<char>, JsonV>::empty());
        Json::Obj(members)
    }

    /// This object with the member `key` set to `value`.
    pub fn with(self, key: &str, value: Json) -> (r: Json)
        requires
            self@ is Obj,
        ensures
            r@ == JsonV::Obj(self@->Obj_0.insert(key@, value@)),
    {
        match self {
            Json::Obj(mut members) => {
                let ghost before = members@;
                members.push((key.to_owned(), value));
                proof {
                    lemma_members_prefix(members@, before, before.len());
                    assert(members@.last().0@ == key@);
                    assert(members_view(members@, members@.len()) == members_view(
                        before,
                        before.len(),
                    ).insert(key@, value@));
                }
                Json::Obj(members)
            },
            other => other,
        }
    }

    /// A copy with the same value.
    pub fn dup(&self) -> (r: Json)
        ensures
            r@ == self@,
        decreases self,
    {
        match self {
            Json::Null => Json::Null,
            Json::Bool(b) => Json::Bool(*b),
            Json::Num(n) => Json::Num(dup_num(n)),
            Json::Str(s) => Json::Str(s.clone()),
            Json::Arr(items) => {
                let mut out: Vec<Json> = Vec::new();
                let mut i: usize = 0;
                while i < items.len()
                    invariant
                        *self == Json::Arr(*items),
                        i <= items@.len(),
                        out@.len() == i,
                        forall|k: int| 0 <= k < i ==> (#[trigger] out@[k])@ == items@[k]@,
                    decreases items@.len() - i,
                {
                    proof {
                        lemma_item_smaller(*self, *items, i as int);
                    }
                    out.push(items[i].dup());
                    i = i + 1;
                }
                let r = Json::Arr(out);
                assert(r@->Arr_0 =~= self@->Arr_0);
                r
            },
            Json::Obj(members) => {
                let mut out: Vec<(String, Json)> = Vec::new();
                let mut i: usize = 0;
                while i < members.len()
                    invariant
                        *self == Json::Obj(*members),
                        i <= members@.len(),
                        out@.len() == i,
                        members_view(out@, i as nat) == members_view(members@, i as nat),
                    decreases members@.len() - i,
                {
                    proof {
                        lemma_member_smaller(*self, *members, i as int);
                    }
                    let ghost before = out@;
                    out.push((members[i].0.clone(), members[i].1.dup()));
                    proof {
                        lemma_members_prefix(out@, before, i as nat);
                    }
                    i = i + 1;
                }
                Json::Obj(out)
            },
        }
    }
}

/// A copy of a list of values.
pub fn dup_items(items: &Vec<Json>) -> (r: Vec<Json>)
    ensures
        items_view(r@) == items_view(items@),
{
    let mut out: Vec<Json> = Vec::new();
    let mut i: usize = 0;
    while i < items.len()
        invariant
            i <= items@.len(),
            out@.len() == i,
            forall|k: int| 0 <= k < i ==> (#[trigger] out@[k])@ == items@[k]@,
        decreases items@.len() - i,
    {
        out.push(items[i].dup());
        i = i + 1;
    }
    assert(items_view(out@) =~= items_view(items@));
    out
}

/// A message has a role and a content and nothing else: the role that it was made with
/// under "role", and its text under "content".
pub proof fn law_message_has_role_and_content(role: Seq<char>, content: Seq<char>, key: Seq<char>)
    ensures
        member(text_message(role, content), "role"@) == Some(JsonV::Str(role)),
        member(text_message(role, content), "content"@) == Some(JsonV::Str(content)),
        key != "role"@ && key != "content"@ ==> member(text_message(role, content), key) is None,
{
    reveal_strlit("role");
    reveal_strlit("content");
    assert("role"@.len() != "content"@.len());
}

} // verus!
