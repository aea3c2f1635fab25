//! The identifiers of the menu items by which a proxy is selected: how one
//! is made of a group and a member, and how an event of the tray is read
//! back into the two.

use vstd::prelude::*;
use vstd::slice::*;
use vstd::string::{StringExecFns, StringSliceAdditionalSpecFns};
use vstd::utf8::encode_utf8;
use crate::tray::code::{
    base64_bytes, base64_text, decode, encode, spec_text_of, text_of, MAX_NAME_BYTES,
};

verus! {

/// What can go wrong with an identifier.
#[derive(Clone, Copy, Debug, PartialEq, Eq, Structural)]
pub enum TrayError {
    /// A name is too long to be encoded.
    NameTooLong,
    /// A part of the identifier is no base64.
    Decode,
    /// A part of the identifier does not encode a text.
    NotText,
}

/// The identifier of the item that selects a member of a group.
pub open spec fn spec_menu_id(group: Seq<char>, member: Seq<char>) -> Seq<char> {
    "select_proxy_"@ + base64_text(encode_utf8(group)) + "_"@ + base64_text(encode_utf8(member))
}

/// Whether a name is within the bound of the encoding.
pub open spec fn encodable(name: Seq<char>) -> bool {
    encode_utf8(name).len() <= MAX_NAME_BYTES
}

/// Makes the identifier of the item that selects a member of a group:
/// the fixed beginning, then the two names in base64, with an underscore
/// between them. Names beyond the bound of the encoding give none.
pub fn menu_id(group: &str, member: &str) -> (id: Option<String>)
    ensures
        id matches Some(id) ==> id@ == spec_menu_id(group@, member@),
        id is Some <==> encodable(group@) && encodable(member@),
{
    if group.as_bytes().len() > MAX_NAME_BYTES || member.as_bytes().len() > MAX_NAME_BYTES {
        return None;
    }
    let mut id = String::from_str("select_proxy_");
    let group_code = encode(group);
    id.append(group_code.as_str());
    id.append("_");
    let member_code = encode(member);
    id.append(member_code.as_str());
    Some(id)
}

/// The parts of a text between the separators, from the first byte to the
/// last. There is one part more than there are separators; a part may be
/// empty.
pub open spec fn split(bytes: Seq<u8>, separator: u8) -> Seq<Seq<u8>>
    decreases bytes.len(),
{
    if bytes.len() == 0 {
        seq![Seq::empty()]
    } else {
        let before = split(bytes.drop_last(), separator);
        if bytes.last() == separator {
            before.push(Seq::empty())
        } else {
            before.update(before.len() - 1, before.last().push(bytes.last()))
        }
    }
}

/// There is always a part.
pub proof fn lemma_split_nonempty(bytes: Seq<u8>, separator: u8)
    ensures
        split(bytes, separator).len() >= 1,
    decreases bytes.len(),
{
    if bytes.len() > 0 {
        lemma_split_nonempty(bytes.drop_last(), separator);
    }
}

pub open spec fn parts_of(parts: Seq<Vec<u8>>) -> Seq<Seq<u8>> {
    Seq::new(parts.len(), |i: int| parts[i]@)
}

/// Splits a text at a separator.
pub fn split_bytes(bytes: &[u8], separator: u8) -> (parts: Vec<Vec<u8>>)
    ensures
        parts_of(parts@) == split(bytes@, separator),
{
    let mut done: Vec<Vec<u8>> = Vec::new();
    let mut current: Vec<u8> = Vec::new();
    let mut i: usize = 0;
    proof {
        assert(bytes@.take(0) =~= Seq::<u8>::empty());
        assert(parts_of(done@).push(current@) =~= split(bytes@.take(0), separator));
    }
    while i < bytes.len()
        invariant
            i <= bytes.len(),
            parts_of(done@).push(current@) == split(bytes@.take(i as int), separator),
        decreases bytes.len() - i,
    {
        let ghost before = parts_of(done@).push(current@);
        let byte = bytes[i];
        proof {
            assert(bytes@.take(i + 1).drop_last() =~= bytes@.take(i as int));
            assert(bytes@.take(i + 1).last() == byte);
        }
        if byte == separator {
            done.push(current);
            current = Vec::new();
            proof {
                assert(parts_of(done@) =~= before);
                assert(parts_of(done@).push(current@) =~= before.push(Seq::empty()));
            }
        } else {
            current.push(byte);
            proof {
                assert(parts_of(done@).push(current@) =~= before.update(
                    before.len() - 1,
                    before.last().push(byte),
                ));
            }
        }
        i += 1;
    }
    proof {
        assert(bytes@.take(bytes.len() as int) =~= bytes@);
    }
    let ghost before = parts_of(done@).push(current@);
    done.push(current);
    proof {
        assert(parts_of(done@) =~= before);
    }
    done
}

/// Whether a text begins with another.
pub open spec fn begins_with(bytes: Seq<u8>, beginning: Seq<u8>) -> bool {
    beginning.len() <= bytes.len() && bytes.take(beginning.len() as int) == beginning
}

/// Whether a text begins with another.
pub fn starts_with(bytes: &[u8], beginning: &[u8]) -> (begins: bool)
    ensures
        begins == begins_with(bytes@, beginning@),
{
    if beginning.len() > bytes.len() {
        return false;
    }
    let mut i: usize = 0;
    while i < beginning.len()
        invariant
            i <= beginning.len(),
            beginning.len() <= bytes.len(),
            forall|j: int| 0 <= j < i ==> bytes@[j] == beginning@[j],
        decreases beginning.len() - i,
    {
        if bytes[i] != beginning[i] {
            assert(bytes@.take(beginning.len() as int)[i as int] != beginning@[i as int]);
            return false;
        }
        i += 1;
    }
    assert(bytes@.take(beginning.len() as int) =~= beginning@);
    true
}

/// The name that a part of an identifier stands for.
pub open spec fn spec_name_of(part: Seq<u8>) -> Result<Seq<char>, TrayError> {
    match base64_bytes(part) {
        None => Err(TrayError::Decode),
        Some(bytes) => match spec_text_of(bytes) {
            None => Err(TrayError::NotText),
            Some(name) => Ok(name),
        },
    }
}

pub open spec fn name_view(name: Result<String, TrayError>) -> Result<Seq<char>, TrayError> {
    match name {
        Ok(name) => Ok(name@),
        Err(e) => Err(e),
    }
}

/// Reads the name that a part of an identifier stands for.
pub fn name_of(part: &[u8]) -> (name: Result<String, TrayError>)
    ensures
        name_view(name) == spec_name_of(part@),
{
    match decode(part) {
        Err(_) => Err(TrayError::Decode),
        Ok(bytes) => match text_of(bytes) {
            None => Err(TrayError::NotText),
            Some(name) => Ok(name),
        },
    }
}

/// The selection that an event of the tray asks for: the group and the
/// member.
pub type Selection = (String, String);

/// What an event of the tray asks for. An event that does not begin as the
/// identifiers do, or that has not their four parts between underscores,
/// asks for nothing here. Of the others the third part names the group and
/// the fourth the member; the first part that cannot be read is the error.
pub open spec fn spec_selection(event: Seq<u8>) -> Result<Option<(Seq<char>, Seq<char>)>, TrayError> {
    let parts = split(event, 0x5f);
    if !begins_with(event, "select_proxy_".spec_bytes()) || parts.len() != 4 {
        Ok(None)
    } else {
        match spec_name_of(parts[2]) {
            Err(e) => Err(e),
            Ok(group) => match spec_name_of(parts[3]) {
                Err(e) => Err(e),
                Ok(member) => Ok(Some((group, member))),
            },
        }
    }
}

pub open spec fn selection_view(selection: Result<Option<Selection>, TrayError>) -> Result<
    Option<(Seq<char>, Seq<char>)>,
    TrayError,
> {
    match selection {
        Ok(Some(pair)) => Ok(Some((pair.0@, pair.1@))),
        Ok(None) => Ok(None),
        Err(e) => Err(e),
    }
}

/// Reads an event of the tray: the selection that it asks for, if it is
/// one of the proxy selectors'.
pub fn on_system_tray_event(event: &str) -> (selection: Result<Option<Selection>, TrayError>)
    ensures
        selection_view(selection) == spec_selection(event.spec_bytes()),
{
    let bytes = event.as_bytes();
    if !starts_with(bytes, "select_proxy_".as_bytes()) {
        return Ok(None);
    }
    let parts = split_bytes(bytes, 0x5f);
    if parts.len() != 4 {
        return Ok(None);
    }
    assert(parts_of(parts@)[2] == parts@[2]@);
    assert(parts_of(parts@)[3] == parts@[3]@);
    let group = match name_of(parts[2].as_slice()) {
        Ok(group) => group,
        Err(e) => { return Err(e); },
    };
    let member = match name_of(parts[3].as_slice()) {
        Ok(member) => member,
        Err(e) => { return Err(e); },
    };
    Ok(Some((group, member)))
}

} // verus!
