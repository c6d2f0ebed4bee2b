//! JSON values, as `serde_json` makes, reads and writes them.

use vstd::prelude::*;
use vstd::string::*;

use crate::ipc;

verus! {

broadcast use vstd::string::group_string_axioms;

/// A JSON value of `serde_json`. What is in it is told by the names below.
#[verifier::external_type_specification]
#[verifier::external_body]
pub struct ExValue(serde_json::Value);

/// The members of an object by name, and none of any other value.
pub uninterp spec fn members(value: serde_json::Value) -> Map<Seq<char>, serde_json::Value>;

/// The member of a name, if the value is an object that has it.
pub open spec fn member(value: serde_json::Value, name: Seq<char>) -> Option<serde_json::Value> {
    if members(value).dom().contains(name) {
        Some(members(value)[name])
    } else {
        None
    }
}

/// `serde_json::Value::get` with a name: the member of that name, if the value is an
/// object that has it.
#[verifier::external_body]
pub(crate) fn value_at<'a>(value: &'a serde_json::Value, name: &str) -> (r: Option<
    &'a serde_json::Value,
>)
    ensures
        match r {
            Some(v) => members(*value).dom().contains(name@) && members(*value)[name@] == *v,
            None => !members(*value).dom().contains(name@),
        },
{
    value.get(name)
}

/// The text of a string, and nothing of any other value.
pub uninterp spec fn text_in(value: serde_json::Value) -> Option<Seq<char>>;

/// `serde_json::Value::as_str`: the text of a string, `None` for any other value.
#[verifier::external_body]
fn as_text(value: &serde_json::Value) -> (r: Option<String>)
    ensures
        ipc::text_view(r) == text_in(*value),
{
    value.as_str().map(|s| s.to_string())
}

/// The truth of a boolean, and nothing of any other value.
pub uninterp spec fn bool_in(value: serde_json::Value) -> Option<bool>;

/// `serde_json::Value::as_bool`: the truth of a boolean, `None` for any other value.
#[verifier::external_body]
fn as_bool(value: &serde_json::Value) -> (r: Option<bool>)
    ensures
        r == bool_in(*value),
{
    value.as_bool()
}

/// The text of the member of a name, if there is one and it is a string.
pub open spec fn text_at(value: serde_json::Value, name: Seq<char>) -> Option<Seq<char>> {
    match member(value, name) {
        Some(v) => text_in(v),
        None => None,
    }
}

/// The truth of the member of a name, if there is one and it is a boolean.
pub open spec fn truth_at(value: serde_json::Value, name: Seq<char>) -> Option<bool> {
    match member(value, name) {
        Some(v) => bool_in(v),
        None => None,
    }
}

/// The text of the member of a name, if there is one and it is a string.
pub fn string_member(value: &serde_json::Value, name: &str) -> (r: Option<String>)
    ensures
        ipc::text_view(r) == text_at(*value, name@),
{
    match value_at(value, name) {
        Some(v) => as_text(v),
        None => None,
    }
}

/// The truth of the member of a name, if there is one and it is a boolean.
pub fn bool_member(value: &serde_json::Value, name: &str) -> (r: Option<bool>)
    ensures
        r == truth_at(*value, name@),
{
    match value_at(value, name) {
        Some(v) => as_bool(v),
        None => None,
    }
}

/// `<serde_json::Value as Clone>::clone`: a copy of the value.
#[verifier::external_body]
pub(crate) fn copy(value: &serde_json::Value) -> (r: serde_json::Value)
    ensures
        r == *value,
{
    value.clone()
}

/// The value that `serde_json::from_str` reads in a text, or the text of its error.
pub uninterp spec fn parsed(text: Seq<char>) -> Result<serde_json::Value, Seq<char>>;

/// `serde_json::from_str` into a value: a function of the text alone.
#[verifier::external_body]
pub(crate) fn parse(text: &str) -> (r: Result<serde_json::Value, String>)
    ensures
        match r {
            Ok(value) => parsed(text@) == Ok::<_, Seq<char>>(value),
            Err(e) => parsed(text@) == Err::<serde_json::Value, _>(e@),
        },
{
    serde_json::from_str(text).map_err(|e| e.to_string())
}

/// The number `serde_json::Value::from` makes of an integer.
pub uninterp spec fn number_value(n: u64) -> serde_json::Value;

/// `serde_json::Value::from` of an integer.
#[verifier::external_body]
pub(crate) fn number(n: u64) -> (r: serde_json::Value)
    ensures
        r == number_value(n),
{
    serde_json::Value::from(n)
}

/// The string `serde_json::Value::from` makes of a text.
pub uninterp spec fn string_value(s: Seq<char>) -> serde_json::Value;

/// `serde_json::Value::from` of a text: a string, which holds that text.
#[verifier::external_body]
pub(crate) fn string(s: &str) -> (r: serde_json::Value)
    ensures
        r == string_value(s@),
        text_in(r) == Some(s@),
{
    serde_json::Value::from(s)
}

/// A member of an object.
pub struct Member {
    pub name: String,
    pub value: serde_json::Value,
}

/// What a [`Member`] says.
pub struct MemberView {
    pub name: Seq<char>,
    pub value: serde_json::Value,
}

impl View for Member {
    type V = MemberView;

    open spec fn view(&self) -> MemberView {
        MemberView { name: self.name@, value: self.value }
    }
}

/// The views of a list of members.
pub open spec fn member_views(v: Seq<Member>) -> Seq<MemberView> {
    v.map_values(|m: Member| m@)
}

/// No two members of a list have one name.
pub open spec fn distinct_names(list: Seq<MemberView>) -> bool {
    forall|i: int, j: int| 0 <= i < j < list.len() ==> list[i].name != list[j].name
}

/// The members of a list by name.
pub open spec fn by_name(list: Seq<MemberView>) -> Map<Seq<char>, serde_json::Value>
    decreases list.len(),
{
    if list.len() == 0 {
        Map::empty()
    } else {
        by_name(list.drop_last()).insert(list.last().name, list.last().value)
    }
}

/// The object that collecting members into a `serde_json::Map` gives.
pub uninterp spec fn object_value(members: Seq<MemberView>) -> serde_json::Value;

/// `serde_json::Map::from_iter`, as a value: the object with these members, a function of
/// their list alone. Which member stays of two with one name is left unsaid.
#[verifier::external_body]
pub(crate) fn object(list: Vec<Member>) -> (r: serde_json::Value)
    ensures
        r == object_value(member_views(list@)),
        distinct_names(member_views(list@)) ==> members(r) == by_name(member_views(list@)),
{
    let pairs = list.into_iter().map(|m| (m.name, m.value));
    serde_json::Value::Object(pairs.collect())
}

/// The bytes that `serde_json::to_vec` writes of a value.
pub uninterp spec fn value_bytes(value: serde_json::Value) -> Seq<u8>;

/// `serde_json::to_vec` of a value: a function of the value alone. It fails on maps whose
/// keys are no strings and where a type's own `Serialize` does; a value has neither.
#[verifier::external_body]
pub(crate) fn bytes(value: &serde_json::Value) -> (r: Result<Vec<u8>, String>)
    ensures
        r is Ok,
        r->Ok_0@ == value_bytes(*value),
{
    serde_json::to_vec(value).map_err(|e| e.to_string())
}

/// A member is read under its own name: it has a text exactly where it is there and is a
/// string with that text, and a truth exactly where it is there and is a boolean of it.
pub proof fn a_member_is_read_by_its_name(
    value: serde_json::Value,
    name: Seq<char>,
    text: Seq<char>,
    truth: bool,
)
    ensures
        text_at(value, name) == Some(text) <==> members(value).dom().contains(name) && text_in(
            members(value)[name],
        ) == Some(text),
        truth_at(value, name) == Some(truth) <==> members(value).dom().contains(name) && bool_in(
            members(value)[name],
        ) == Some(truth),
        member(value, name) is Some <==> members(value).dom().contains(name),
        member(value, name) matches Some(v) ==> v == members(value)[name],
{
}

/// A list of members whose names differ has each of them by its name, and no other.
pub proof fn members_are_found_by_name(list: Seq<MemberView>, i: int)
    requires
        distinct_names(list),
    ensures
        0 <= i < list.len() ==> by_name(list).dom().contains(list[i].name) && by_name(
            list,
        )[list[i].name] == list[i].value,
        forall|name: Seq<char>| #[trigger]
            by_name(list).dom().contains(name) ==> exists|k: int|
                0 <= k < list.len() && (#[trigger] list[k]).name == name,
    decreases list.len(),
{
    if list.len() > 0 {
        let before = list.drop_last();
        let last = list.len() - 1;
        assert(distinct_names(before)) by {
            assert forall|a: int, b: int| 0 <= a < b < before.len() implies before[a].name
                != before[b].name by {
                assert(before[a] == list[a] && before[b] == list[b]);
            }
        }
        members_are_found_by_name(before, i);
        if 0 <= i < last {
            assert(before[i] == list[i]);
            assert(list[i].name != list[last].name);
        }
        assert forall|name: Seq<char>| #[trigger]
            by_name(list).dom().contains(name) implies exists|k: int|
            0 <= k < list.len() && (#[trigger] list[k]).name == name by {
            if name == list[last].name {
                assert(list[last].name == name);
            } else {
                assert(by_name(before).dom().contains(name));
                let k = choose|k: int|
                    0 <= k < before.len() && (#[trigger] before[k]).name == name;
                assert(list[k].name == name);
            }
        }
    }
}

} // verus!
