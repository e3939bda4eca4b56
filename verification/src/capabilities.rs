use vstd::prelude::*;
use vstd::string::StringExecFns;

pub mod android;
pub mod ios;

verus! {

/// The capabilities asked of the automation server, as `thirtyfour` holds
/// them.
#[verifier::external_type_specification]
#[verifier::external_body]
pub struct ExCapabilities(thirtyfour::Capabilities);

/// The value of a capability as plain values.
pub enum CapView {
    Text(Seq<char>),
    Flag(bool),
    Null,
    List(Seq<Seq<char>>),
    Member(Seq<char>, Seq<char>),
}

/// What a set of capabilities holds: each key that was set, with the value
/// set last.
pub uninterp spec fn held(caps: thirtyfour::Capabilities) -> Map<Seq<char>, CapView>;

/// Calls `Capabilities::new`: a set of capabilities that holds nothing.
#[verifier::external_body]
pub(crate) fn new_capabilities() -> (made: thirtyfour::Capabilities)
    ensures
        held(made) =~= Map::empty(),
{
    thirtyfour::Capabilities::new()
}

/// Calls `Capabilities::set` with a text. The call serialises the value and
/// inserts it under the key, in place of what the key held; a text always
/// serialises, so the call goes through.
#[verifier::external_body]
pub(crate) fn put_text(caps: &mut thirtyfour::Capabilities, key: &str, value: &str)
    ensures
        held(*final(caps)) == held(*old(caps)).insert(key@, CapView::Text(value@)),
{
    let _ = caps.set(key, value);
}

/// Calls `Capabilities::set` with a flag. A flag always serialises, so the
/// call goes through and the key holds the flag.
#[verifier::external_body]
pub(crate) fn put_flag(caps: &mut thirtyfour::Capabilities, key: &str, value: bool)
    ensures
        held(*final(caps)) == held(*old(caps)).insert(key@, CapView::Flag(value)),
{
    let _ = caps.set(key, value);
}

/// Calls `Capabilities::set` with the unit. The unit always serialises, to
/// null, so the call goes through and the key holds null.
#[verifier::external_body]
pub(crate) fn put_null(caps: &mut thirtyfour::Capabilities, key: &str)
    ensures
        held(*final(caps)) == held(*old(caps)).insert(key@, CapView::Null),
{
    let _ = caps.set(key, ());
}

/// Calls `Capabilities::set` with a list of texts. Such a list always
/// serialises, so the call goes through and the key holds the texts in
/// their order.
#[verifier::external_body]
pub(crate) fn put_list(caps: &mut thirtyfour::Capabilities, key: &str, items: &Vec<String>)
    ensures
        held(*final(caps)) == held(*old(caps)).insert(key@, CapView::List(texts(items@))),
{
    let _ = caps.set(key, items);
}

/// Calls `Capabilities::set` with a map of one text under a text key. A map
/// whose keys are texts always serialises, so the call goes through and the
/// key holds an object with that one member.
#[verifier::external_body]
pub(crate) fn put_member(caps: &mut thirtyfour::Capabilities, key: &str, name: &str, value: &str)
    ensures
        held(*final(caps)) == held(*old(caps)).insert(key@, CapView::Member(name@, value@)),
{
    let _ = caps.set(key, std::collections::BTreeMap::from([(name, value)]));
}

/// The texts of a list.
pub open spec fn texts(items: Seq<String>) -> Seq<Seq<char>> {
    Seq::new(items.len(), |i: int| items[i]@)
}

/// The text of a value that may be missing.
pub open spec fn text_or_null(text: Option<Seq<char>>) -> CapView {
    match text {
        Some(value) => CapView::Text(value),
        None => CapView::Null,
    }
}

/// The view of a text that may be missing.
pub open spec fn optional_view(text: Option<&str>) -> Option<Seq<char>> {
    match text {
        Some(value) => Some(value@),
        None => None,
    }
}

/// Sets the capability `key` to the text `value`, or to null where there is
/// none.
pub fn put_optional(caps: &mut thirtyfour::Capabilities, key: &str, value: Option<&str>)
    ensures
        held(*final(caps)) == held(*old(caps)).insert(key@, text_or_null(optional_view(value))),
{
    match value {
        Some(text) => put_text(caps, key, text),
        None => put_null(caps, key),
    }
}

/// Sets the capability `key` to a list of three texts.
pub fn put_three(
    caps: &mut thirtyfour::Capabilities,
    key: &str,
    first: &str,
    second: &str,
    third: &str,
)
    ensures
        held(*final(caps)) == held(*old(caps)).insert(
            key@,
            CapView::List(seq![first@, second@, third@]),
        ),
{
    let mut items: Vec<String> = Vec::new();
    items.push(String::from_str(first));
    items.push(String::from_str(second));
    items.push(String::from_str(third));
    assert(texts(items@) =~= seq![first@, second@, third@]);
    put_list(caps, key, &items);
}

} // verus!
