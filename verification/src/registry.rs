//! Values as the configuration store takes them: text in UTF-16, and the
//! commands that delete values.

use crate::publish::{
    deletions, ignore_list_key, name_views, publish_commands, RequestView, StoreCommand,
    StoreCommandView, StoreReply,
};
use crate::text::{append_str, chars_of, string_of};
use vstd::prelude::*;
use vstd::string::StringSliceAdditionalSpecFns;

verus! {

/// The UTF-16 code units of one character: the character itself below
/// U+10000, a pair of surrogates above.
pub open spec fn utf16_units(c: char) -> Seq<u16> {
    let code = c as u32;
    if code < 0x10000 {
        seq![code as u16]
    } else {
        seq![
            (0xd800 + (code - 0x10000) / 0x400) as u16,
            (0xdc00 + (code - 0x10000) % 0x400) as u16,
        ]
    }
}

/// The UTF-16 code units of a text.
pub open spec fn utf16(text: Seq<char>) -> Seq<u16>
    decreases text.len(),
{
    if text.len() == 0 {
        Seq::empty()
    } else {
        utf16(text.drop_last()) + utf16_units(text.last())
    }
}

/// The bytes of code units, the low byte of each unit first.
pub open spec fn le_bytes(units: Seq<u16>) -> Seq<u8>
    decreases units.len(),
{
    if units.len() == 0 {
        Seq::empty()
    } else {
        le_bytes(units.drop_last()) + seq![
            (units.last() % 0x100) as u8,
            (units.last() / 0x100) as u8,
        ]
    }
}

/// The text in UTF-16 with a closing zero unit.
pub open spec fn wide(text: Seq<char>) -> Seq<u16> {
    utf16(text) + seq![0u16]
}

/// Several texts in one value: each in UTF-16 with its closing zero unit,
/// and one more zero unit at the end.
pub open spec fn multi_wide(texts: Seq<Seq<char>>) -> Seq<u16>
    decreases texts.len(),
{
    if texts.len() == 0 {
        seq![0u16]
    } else {
        multi_wide(texts.drop_last()).drop_last() + wide(texts.last()) + seq![0u16]
    }
}

fn push_utf16(units: &mut Vec<u16>, c: char)
    ensures
        final(units)@ == old(units)@ + utf16_units(c),
{
    let code: u32 = c as u32;
    if code < 0x10000 {
        units.push(code as u16);
    } else {
        let rest: u32 = code - 0x10000;
        units.push((0xd800 + rest / 0x400) as u16);
        units.push((0xdc00 + rest % 0x400) as u16);
    }
}

fn append_utf16(units: &mut Vec<u16>, text: &str)
    ensures
        final(units)@ == old(units)@ + utf16(text@),
{
    let chars = chars_of(text);
    let mut i: usize = 0;
    while i < chars.len()
        invariant
            i <= chars.len(),
            chars@ == text@,
            units@ == old(units)@ + utf16(chars@.take(i as int)),
        decreases chars.len() - i,
    {
        proof {
            let next = chars@.take(i + 1);
            assert(next.drop_last() == chars@.take(i as int));
        }
        push_utf16(units, chars[i]);
        i += 1;
    }
    proof {
        assert(chars@.take(chars@.len() as int) == chars@);
    }
}

/// The text in UTF-16.
pub fn encode_utf16(text: &str) -> (r: Vec<u16>)
    ensures
        r@ == utf16(text@),
{
    let mut units: Vec<u16> = Vec::new();
    append_utf16(&mut units, text);
    units
}

/// The text as the store takes a name: in UTF-16, closed by a zero unit.
pub fn str_to_pcwstr(s: &str) -> (r: Vec<u16>)
    ensures
        r@ == wide(s@),
{
    let mut units = encode_utf16(s);
    units.push(0);
    units
}

/// The bytes of code units, the low byte of each unit first.
pub fn units_to_bytes(units: &Vec<u16>) -> (r: Vec<u8>)
    ensures
        r@ == le_bytes(units@),
{
    let mut bytes: Vec<u8> = Vec::new();
    let mut i: usize = 0;
    while i < units.len()
        invariant
            i <= units.len(),
            bytes@ == le_bytes(units@.take(i as int)),
        decreases units.len() - i,
    {
        let unit = units[i];
        proof {
            let next = units@.take(i + 1);
            assert(next.drop_last() == units@.take(i as int));
        }
        bytes.push((unit % 0x100) as u8);
        bytes.push((unit / 0x100) as u8);
        i += 1;
    }
    proof {
        assert(units@.take(units@.len() as int) == units@);
    }
    bytes
}

/// What goes to the store for a string value: the name as the store takes
/// it, and the text as the bytes of its UTF-16 form, without a closing zero.
pub fn set_reg_vaule(value_name: &str, value: &str) -> (r: (Vec<u16>, Vec<u8>))
    ensures
        r.0@ == wide(value_name@),
        r.1@ == le_bytes(utf16(value@)),
{
    let name = str_to_pcwstr(value_name);
    let units = encode_utf16(value);
    (name, units_to_bytes(&units))
}

/// What the failure to open a key is reported as.
pub open spec fn key_failure(sub_key: Seq<char>) -> Seq<char> {
    "Failed to turn on the \""@ + sub_key + "\" key"@
}

/// What the store's reply to the opening of the key `sub_key` means.
pub fn open_reg_subkey(sub_key: &str, reply: StoreReply) -> (r: Result<(), String>)
    ensures
        match r {
            Ok(_) => reply != StoreReply::Failed,
            Err(message) => reply == StoreReply::Failed && message@ == key_failure(sub_key@),
        },
{
    if reply == StoreReply::Failed {
        let mut out: Vec<char> = Vec::new();
        append_str(&mut out, "Failed to turn on the \"");
        append_str(&mut out, sub_key);
        append_str(&mut out, "\" key");
        Err(string_of(&out))
    } else {
        Ok(())
    }
}

/// The key in which values are deleted: `key` itself, or the key `sub_key`
/// below it.
pub open spec fn deletion_key(key: Seq<char>, sub_key: Option<Seq<char>>) -> Seq<char> {
    match sub_key {
        Some(below) => key + seq!['\\'] + below,
        None => key,
    }
}

/// The views of the commands, in their order.
pub open spec fn command_views(commands: Seq<StoreCommand>) -> Seq<StoreCommandView> {
    commands.map_values(|c: StoreCommand| c@)
}

/// The commands that delete the values `value_names` of `key`, or of the key
/// `sub_key` below it.
pub fn delete_reg_key_vaule(key: &str, sub_key: Option<&str>, value_names: &Vec<String>) -> (r: Vec<
    StoreCommand,
>)
    ensures
        command_views(r@) == deletions(
            deletion_key(
                key@,
                match sub_key {
                    Some(below) => Some(below@),
                    None => None,
                },
            ),
            name_views(value_names@),
        ),
{
    let mut target: Vec<char> = Vec::new();
    append_str(&mut target, key);
    match sub_key {
        Some(below) => {
            target.push('\\');
            append_str(&mut target, below);
        },
        None => {},
    }
    assert(target@ =~= deletion_key(
        key@,
        match sub_key {
            Some(below) => Some(below@),
            None => None,
        },
    ));
    let mut commands: Vec<StoreCommand> = Vec::new();
    let mut i: usize = 0;
    while i < value_names.len()
        invariant
            i <= value_names.len(),
            command_views(commands@) == deletions(target@, name_views(value_names@.take(i as int))),
        decreases value_names.len() - i,
    {
        let ghost before = commands@;
        let command = StoreCommand::DeleteValue {
            key: string_of(&target),
            name: value_names[i].clone(),
        };
        commands.push(command);
        proof {
            assert(command_views(commands@) =~= command_views(before).push(command@));
        }
        i += 1;
    }
    commands
}

/// The deletions of a publication are the deletions of the cached values
/// in the ignore list below the service key and in the service key itself.
pub proof fn lemma_publication_deletes(service_key: Seq<char>, request: RequestView)
    ensures
        publish_commands(service_key, request).skip(2) == deletions(
            deletion_key(service_key, Some("IgnoreList"@)),
            request.cache_entries,
        ) + deletions(deletion_key(service_key, None), request.cache_entries),
{
    reveal_strlit("IgnoreList");
    reveal_strlit("\\IgnoreList");
    assert(ignore_list_key(service_key) =~= deletion_key(service_key, Some("IgnoreList"@)));
    assert(publish_commands(service_key, request).skip(2) =~= deletions(
        deletion_key(service_key, Some("IgnoreList"@)),
        request.cache_entries,
    ) + deletions(deletion_key(service_key, None), request.cache_entries));
}

/// The type of a value of the store.
#[derive(Debug, Clone, Copy, PartialEq, Eq, Structural)]
pub enum RegType {
    /// A text.
    Sz,
    /// Several texts.
    MultiSz,
}

/// A value as the store holds it.
#[derive(Debug, Clone, PartialEq, Eq)]
pub struct RegValue {
    pub bytes: Vec<u8>,
    pub vtype: RegType,
}

/// What can be turned into a value of the store.
pub trait ToRegValue {
    /// The bytes and the type of the value.
    spec fn reg_value(&self) -> (Seq<u8>, RegType);

    fn to_reg_value(&self) -> (r: RegValue)
        ensures
            (r.bytes@, r.vtype) == self.reg_value(),
    ;
}

impl ToRegValue for Vec<String> {
    open spec fn reg_value(&self) -> (Seq<u8>, RegType) {
        (le_bytes(multi_wide(name_views(self@))), RegType::MultiSz)
    }

    fn to_reg_value(&self) -> (r: RegValue) {
        let mut units: Vec<u16> = Vec::new();
        let mut i: usize = 0;
        while i < self.len()
            invariant
                i <= self.len(),
                units@ + seq![0u16] == multi_wide(name_views(self@.take(i as int))),
            decreases self.len() - i,
        {
            proof {
                let done = self@.take(i as int);
                let next = self@.take(i + 1);
                assert(name_views(next).drop_last() =~= name_views(done));
            }
            append_utf16(&mut units, self[i].as_str());
            units.push(0);
            i += 1;
        }
        let ghost before = units@;
        units.push(0);
        proof {
            assert(self@.take(self@.len() as int) == self@);
            assert(units@ =~= before + seq![0u16]);
        }
        RegValue { bytes: units_to_bytes(&units), vtype: RegType::MultiSz }
    }
}

/// What can be handed to the store as the bytes of a value, or as no value.
pub trait ToOptionU8Slice {
    /// The bytes, or none.
    spec fn option_u8(&self) -> Option<Seq<u8>>;

    fn to_option_u8(&self) -> (r: Option<&[u8]>)
        ensures
            match r {
                Some(bytes) => self.option_u8() == Some(bytes@),
                None => self.option_u8() is None,
            },
    ;
}

impl ToOptionU8Slice for &str {
    /// The UTF-8 bytes of a text; none for the empty text.
    open spec fn option_u8(&self) -> Option<Seq<u8>> {
        if self@.len() == 0 {
            None
        } else {
            Some(self.spec_bytes())
        }
    }

    fn to_option_u8(&self) -> (r: Option<&[u8]>) {
        if self.is_empty() {
            None
        } else {
            Some(self.as_bytes())
        }
    }
}

} // verus!
