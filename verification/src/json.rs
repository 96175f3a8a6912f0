//! Flat JSON objects, as far as the signaling protocol needs them.
//!
//! Parsing and rendering are done by `serde_json`. This module is the trusted
//! boundary around it: the outside types are declared here, what they hold is
//! given a name, and each outside call sits in a wrapper of a few lines whose
//! contract is believed, not proved. Everything that decides what a frame
//! means lives in `codec`, on the plain `Member` values handed out here.
use vstd::prelude::*;

verus! {

/// `serde_json::Value`, declared so that it can be named. Nothing inside one
/// is visible here.
#[verifier::external_type_specification]
#[verifier::external_body]
pub struct ExJsonValue(serde_json::Value);

/// `serde_json::Map`, the object of a JSON text, declared so that objects
/// can be held and passed on. Nothing inside one is visible here.
#[verifier::external_type_specification]
#[verifier::external_body]
#[verifier::reject_recursive_types(K)]
#[verifier::reject_recursive_types(V)]
pub struct ExJsonMap<K, V>(serde_json::Map<K, V>);

/// What the protocol can tell about one member of a JSON object.
pub enum Member {
    /// The object has no member of that name.
    Absent,
    /// The member is the JSON `null`.
    Null,
    /// The member is a JSON string, with escapes resolved.
    Text(String),
    /// The member is a number, a boolean, an array or an object.
    Other,
}

/// The mathematical value of a `Member`.
pub enum MemberView {
    Absent,
    Null,
    Text(Seq<char>),
    Other,
}

impl View for Member {
    type V = MemberView;

    open spec fn view(&self) -> MemberView {
        match self {
            Member::Absent => MemberView::Absent,
            Member::Null => MemberView::Null,
            Member::Text(s) => MemberView::Text(s@),
            Member::Other => MemberView::Other,
        }
    }
}

/// The members that a `serde_json` object holds, by name. A name that the
/// object lacks is outside the domain; `MemberView::Absent` never occurs as a
/// value.
pub uninterp spec fn object_members(m: serde_json::Map<String, serde_json::Value>) -> Map<
    Seq<char>,
    MemberView,
>;

/// What `serde_json` makes of a text that is parsed as a JSON object: the
/// members of that object, or `None` where the text is not one JSON object.
pub uninterp spec fn parsed_members(text: Seq<char>) -> Option<Map<Seq<char>, MemberView>>;

/// The compact text that `serde_json` writes for an object whose members are
/// all strings or `null`.
pub uninterp spec fn object_text(members: Map<Seq<char>, MemberView>) -> Seq<char>;

/// The member of `members` called `name`, `Absent` where there is none.
pub open spec fn member_at(members: Map<Seq<char>, MemberView>, name: Seq<char>) -> MemberView {
    if members.contains_key(name) {
        members[name]
    } else {
        MemberView::Absent
    }
}

/// Every member is a string or `null`: the objects that `object_text` speaks of.
pub open spec fn renderable(members: Map<Seq<char>, MemberView>) -> bool {
    forall|name: Seq<char>| #[trigger]
        members.contains_key(name) ==> members[name] is Text || members[name] is Null
}

/// Calls `serde_json::from_str` at the type `serde_json::Map<String, Value>`.
/// Trusted: the call succeeds exactly on the texts that `parsed_members`
/// accepts, and the object it returns holds the members named there. The
/// parse error itself is dropped.
#[verifier::external_body]
pub(crate) fn parse_object(text: &str) -> (r: Option<serde_json::Map<String, serde_json::Value>>)
    ensures
        match r {
            Some(m) => parsed_members(text@) == Some(object_members(m)),
            None => parsed_members(text@) is None,
        },
{
    serde_json::from_str::<serde_json::Map<String, serde_json::Value>>(text).ok()
}

/// Calls `serde_json::Map::get` and tells the variant of the `Value` found.
/// Trusted: the result is the member that the object holds under `name`, a
/// string copied out, `Absent` where the object has no such member.
#[verifier::external_body]
pub(crate) fn object_member(m: &serde_json::Map<String, serde_json::Value>, name: &str) -> (r:
    Member)
    ensures
        r@ == member_at(object_members(*m), name@),
{
    match m.get(name) {
        None => Member::Absent,
        Some(serde_json::Value::Null) => Member::Null,
        Some(serde_json::Value::String(s)) => Member::Text(s.clone()),
        Some(_) => Member::Other,
    }
}

/// Calls `serde_json::Map::new`. Trusted: the new object has no member.
#[verifier::external_body]
pub(crate) fn object_new() -> (r: serde_json::Map<String, serde_json::Value>)
    ensures
        object_members(r) == (Map::<Seq<char>, MemberView>::empty()),
{
    serde_json::Map::new()
}

/// Calls `serde_json::Map::insert` with a `Value::String`. Trusted: the
/// object then holds `text` under `name`, in place of what it held there, and
/// its other members are as before.
#[verifier::external_body]
pub(crate) fn object_put_text(
    m: &mut serde_json::Map<String, serde_json::Value>,
    name: &str,
    text: &str,
)
    ensures
        object_members(*final(m)) == object_members(*old(m)).insert(
            name@,
            MemberView::Text(text@),
        ),
{
    m.insert(name.to_string(), serde_json::Value::String(text.to_string()));
}

/// Calls `serde_json::Map::insert` with `Value::Null`. Trusted: the object
/// then holds `null` under `name`, and its other members are as before.
#[verifier::external_body]
pub(crate) fn object_put_null(m: &mut serde_json::Map<String, serde_json::Value>, name: &str)
    ensures
        object_members(*final(m)) == object_members(*old(m)).insert(name@, MemberView::Null),
{
    m.insert(name.to_string(), serde_json::Value::Null);
}

/// Writes the object out with `Value::to_string`. Trusted: the text depends
/// on the members alone (the object keeps them sorted by name, whatever the
/// order in which they were put), which is what `object_text` names.
#[verifier::external_body]
pub(crate) fn object_render(m: serde_json::Map<String, serde_json::Value>) -> (r: String)
    requires
        renderable(object_members(m)),
    ensures
        r@ == object_text(object_members(m)),
{
    serde_json::Value::Object(m).to_string()
}

} // verus!
