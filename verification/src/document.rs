//! Reading a metadata document: JSON text to the plain values of its fields.
//!
//! A document is a JSON object that names its fields, or a JSON array that
//! gives them in order. Its creators, where present, are documents of the same
//! two forms. Unknown fields of an object are ignored, and may repeat; an
//! object that names one of its own fields twice is refused.

use serde_json::value::RawValue;
use serde_with::{As, Same};
use std::collections::BTreeMap;
use vstd::prelude::*;
use vstd::string::*;

verus! {

/// What the JSON reader makes of a text read as an object: every entry in the
/// order of the text, a repeated key as often as it stands there, each value
/// as its raw text; or the reader's complaint.
pub uninterp spec fn spec_json_object(text: Seq<char>) -> Result<
    Seq<(Seq<char>, Seq<char>)>,
    Seq<char>,
>;

/// What the JSON reader makes of a text read as an array: the raw texts of its
/// items in order, or the reader's complaint.
pub uninterp spec fn spec_json_array(text: Seq<char>) -> Result<Seq<Seq<char>>, Seq<char>>;

/// What the JSON reader makes of a text read as a string.
pub uninterp spec fn spec_json_string(text: Seq<char>) -> Result<Seq<char>, Seq<char>>;

/// What the JSON reader makes of a text read as an unsigned 16-bit number.
pub uninterp spec fn spec_json_u16(text: Seq<char>) -> Result<u16, Seq<char>>;

/// What the JSON reader makes of a text read as an unsigned 8-bit number.
pub uninterp spec fn spec_json_u8(text: Seq<char>) -> Result<u8, Seq<char>>;

/// What the JSON reader makes of a text read as a boolean.
pub uninterp spec fn spec_json_bool(text: Seq<char>) -> Result<bool, Seq<char>>;

/// The entries of an object as pairs of texts.
pub open spec fn entries_model(entries: Seq<(String, String)>) -> Seq<(Seq<char>, Seq<char>)> {
    Seq::new(entries.len(), |i: int| (entries[i].0@, entries[i].1@))
}

/// A list of texts as their character sequences.
pub open spec fn texts_model(texts: Seq<String>) -> Seq<Seq<char>> {
    Seq::new(texts.len(), |i: int| texts[i]@)
}

/// Reads the text with a `serde_json::Deserializer`, as a map read into a
/// list of pairs of key and raw value by `serde_with`, and calls `end` on the
/// reader, as `serde_json::from_str` does.
///
/// Trusted: the result is the reader's: one pair for each entry of the object
/// in the order of the text, or the text of its error.
#[verifier::external_body]
fn json_object(text: &str) -> (r: Result<Vec<(String, String)>, String>)
    ensures
        match r {
            Ok(entries) => spec_json_object(text@) == Ok::<Seq<(Seq<char>, Seq<char>)>, Seq<char>>(
                entries_model(entries@),
            ),
            Err(reason) => spec_json_object(text@) == Err::<Seq<(Seq<char>, Seq<char>)>, Seq<char>>(
                reason@,
            ),
        },
{
    let mut reader = serde_json::Deserializer::from_str(text);
    let entries: Vec<(String, Box<RawValue>)> =
        As::<BTreeMap<Same, Same>>::deserialize(&mut reader).map_err(|e| e.to_string())?;
    reader.end().map_err(|e| e.to_string())?;
    Ok(entries.into_iter().map(|(k, v)| (k, v.get().to_owned())).collect())
}

/// Calls `serde_json::from_str` for a list of raw values.
///
/// Trusted: the result is the reader's, or the text of its error.
#[verifier::external_body]
fn json_array(text: &str) -> (r: Result<Vec<String>, String>)
    ensures
        match r {
            Ok(items) => spec_json_array(text@) == Ok::<Seq<Seq<char>>, Seq<char>>(
                texts_model(items@),
            ),
            Err(reason) => spec_json_array(text@) == Err::<Seq<Seq<char>>, Seq<char>>(reason@),
        },
{
    serde_json::from_str::<Vec<Box<RawValue>>>(text)
        .map(|items| items.into_iter().map(|v| v.get().to_owned()).collect())
        .map_err(|e| e.to_string())
}

/// Calls `serde_json::from_str` for a string.
///
/// Trusted: the result is the reader's, or the text of its error.
#[verifier::external_body]
fn json_string(text: &str) -> (r: Result<String, String>)
    ensures
        match r {
            Ok(value) => spec_json_string(text@) == Ok::<Seq<char>, Seq<char>>(value@),
            Err(reason) => spec_json_string(text@) == Err::<Seq<char>, Seq<char>>(reason@),
        },
{
    serde_json::from_str::<String>(text).map_err(|e| e.to_string())
}

/// Calls `serde_json::from_str` for a `u16`.
///
/// Trusted: the result is the reader's, or the text of its error.
#[verifier::external_body]
fn json_u16(text: &str) -> (r: Result<u16, String>)
    ensures
        match r {
            Ok(value) => spec_json_u16(text@) == Ok::<u16, Seq<char>>(value),
            Err(reason) => spec_json_u16(text@) == Err::<u16, Seq<char>>(reason@),
        },
{
    serde_json::from_str::<u16>(text).map_err(|e| e.to_string())
}

/// Calls `serde_json::from_str` for a `u8`.
///
/// Trusted: the result is the reader's, or the text of its error.
#[verifier::external_body]
fn json_u8(text: &str) -> (r: Result<u8, String>)
    ensures
        match r {
            Ok(value) => spec_json_u8(text@) == Ok::<u8, Seq<char>>(value),
            Err(reason) => spec_json_u8(text@) == Err::<u8, Seq<char>>(reason@),
        },
{
    serde_json::from_str::<u8>(text).map_err(|e| e.to_string())
}

/// Calls `serde_json::from_str` for a `bool`.
///
/// Trusted: the result is the reader's, or the text of its error.
#[verifier::external_body]
fn json_bool(text: &str) -> (r: Result<bool, String>)
    ensures
        match r {
            Ok(value) => spec_json_bool(text@) == Ok::<bool, Seq<char>>(value),
            Err(reason) => spec_json_bool(text@) == Err::<bool, Seq<char>>(reason@),
        },
{
    serde_json::from_str::<bool>(text).map_err(|e| e.to_string())
}

/// Optional texts as optional character sequences.
pub open spec fn raw_model(raw: Seq<Option<String>>) -> Seq<Option<Seq<char>>> {
    Seq::new(
        raw.len(),
        |i: int|
            match raw[i] {
                Some(text) => Some(text@),
                None => None,
            },
    )
}

/// The raw value of the first entry with the given key, if there is one.
pub open spec fn field_value(entries: Seq<(Seq<char>, Seq<char>)>, name: Seq<char>) -> Option<
    Seq<char>,
>
    decreases entries.len(),
{
    if entries.len() == 0 {
        None
    } else if entries.first().0 == name {
        Some(entries.first().1)
    } else {
        field_value(entries.drop_first(), name)
    }
}

/// Whether two entries have the given key.
pub open spec fn named_twice(entries: Seq<(Seq<char>, Seq<char>)>, name: Seq<char>) -> bool {
    exists|i: int, j: int|
        #![trigger entries[i], entries[j]]
        0 <= i < j < entries.len() && entries[i].0 == name && entries[j].0 == name
}

/// The first of the names that two entries have as their key, if there is one.
pub open spec fn first_named_twice(
    entries: Seq<(Seq<char>, Seq<char>)>,
    names: Seq<Seq<char>>,
) -> Option<Seq<char>>
    decreases names.len(),
{
    if names.len() == 0 {
        None
    } else if named_twice(entries, names.first()) {
        Some(names.first())
    } else {
        first_named_twice(entries, names.drop_first())
    }
}

/// The complaint about a field that an object names twice.
pub open spec fn duplicate_field(name: Seq<char>) -> Seq<char> {
    "duplicate field `"@ + name + "`"@
}

/// The raw texts of the named fields of a document, in the order of the names.
///
/// An object gives each field that it names and leaves the others out; it may
/// name none of them twice. An array must hold exactly one item per name.
pub open spec fn raw_fields(text: Seq<char>, names: Seq<Seq<char>>) -> Result<
    Seq<Option<Seq<char>>>,
    Seq<char>,
> {
    match spec_json_object(text) {
        Ok(entries) => match first_named_twice(entries, names) {
            Some(name) => Err(duplicate_field(name)),
            None => Ok(Seq::new(names.len(), |i: int| field_value(entries, names[i]))),
        },
        Err(reason) => match spec_json_array(text) {
            Ok(items) => if items.len() < names.len() {
                Err("invalid length: too few elements"@)
            } else if items.len() > names.len() {
                Err("trailing characters"@)
            } else {
                Ok(Seq::new(names.len(), |i: int| Some(items[i])))
            },
            Err(_) => Err(reason),
        },
    }
}

/// The complaint about a field that a document must name and does not.
pub open spec fn missing_field(name: Seq<char>) -> Seq<char> {
    "missing field `"@ + name + "`"@
}

/// A field that must be there and hold a string.
pub open spec fn required_text(raw: Option<Seq<char>>, name: Seq<char>) -> Result<
    Seq<char>,
    Seq<char>,
> {
    match raw {
        Some(text) => spec_json_string(text),
        None => Err(missing_field(name)),
    }
}

/// A field that must be there and hold an unsigned 16-bit number.
pub open spec fn required_u16(raw: Option<Seq<char>>, name: Seq<char>) -> Result<u16, Seq<char>> {
    match raw {
        Some(text) => spec_json_u16(text),
        None => Err(missing_field(name)),
    }
}

/// A field that must be there and hold an unsigned 8-bit number.
pub open spec fn required_u8(raw: Option<Seq<char>>, name: Seq<char>) -> Result<u8, Seq<char>> {
    match raw {
        Some(text) => spec_json_u8(text),
        None => Err(missing_field(name)),
    }
}

/// A field that must be there and hold a boolean.
pub open spec fn required_bool(raw: Option<Seq<char>>, name: Seq<char>) -> Result<bool, Seq<char>> {
    match raw {
        Some(text) => spec_json_bool(text),
        None => Err(missing_field(name)),
    }
}

/// The names as character sequences.
pub open spec fn names_model(names: Seq<&str>) -> Seq<Seq<char>> {
    Seq::new(names.len(), |i: int| names[i]@)
}

/// Whether two texts hold the same characters.
pub fn same_text(a: &str, b: &str) -> (same: bool)
    ensures
        same == (a@ == b@),
{
    a.to_owned() == b.to_owned()
}

/// The text `prefix` followed by `detail`.
pub fn prefixed(prefix: &str, detail: &str) -> (text: String)
    ensures
        text@ == prefix@ + detail@,
{
    let mut text = prefix.to_owned();
    text.append(detail);
    text
}

/// Looks a field up among the entries of an object.
pub fn find_field(entries: &Vec<(String, String)>, name: &str) -> (found: Option<String>)
    ensures
        match found {
            Some(text) => field_value(entries_model(entries@), name@) == Some(text@),
            None => field_value(entries_model(entries@), name@) is None,
        },
{
    let ghost all = entries_model(entries@);
    let mut i: usize = 0;
    proof {
        assert(all.skip(0) =~= all);
    }
    while i < entries.len()
        invariant
            i <= entries.len(),
            all == entries_model(entries@),
            field_value(all, name@) == field_value(all.skip(i as int), name@),
        decreases entries.len() - i,
    {
        proof {
            assert(all.skip(i as int).first() == all[i as int]);
            assert(all.skip(i as int).drop_first() == all.skip(i as int + 1));
        }
        if same_text(entries[i].0.as_str(), name) {
            return Some(entries[i].1.clone());
        }
        i += 1;
    }
    proof {
        assert(all.skip(i as int).len() == 0);
    }
    None
}

/// Whether two entries have the given key.
pub fn is_named_twice(entries: &Vec<(String, String)>, name: &str) -> (twice: bool)
    ensures
        twice == named_twice(entries_model(entries@), name@),
{
    let ghost all = entries_model(entries@);
    let mut found: Option<usize> = None;
    let mut i: usize = 0;
    while i < entries.len()
        invariant
            i <= entries.len(),
            all == entries_model(entries@),
            match found {
                None => forall|k: int| 0 <= k < i ==> (#[trigger] all[k]).0 != name@,
                Some(at) => at < i && all[at as int].0 == name@ && forall|k: int|
                    0 <= k < i && k != at ==> (#[trigger] all[k]).0 != name@,
            },
        decreases entries.len() - i,
    {
        if same_text(entries[i].0.as_str(), name) {
            match found {
                Some(at) => {
                    proof {
                        assert(all[at as int].0 == name@ && all[i as int].0 == name@);
                    }
                    return true;
                },
                None => {
                    found = Some(i);
                },
            }
        }
        i += 1;
    }
    false
}

/// The complaint about a field that an object names twice.
fn duplicate(name: &str) -> (reason: String)
    ensures
        reason@ == duplicate_field(name@),
{
    let mut reason = prefixed("duplicate field `", name);
    reason.append("`");
    reason
}

/// Reads the raw texts of the named fields of a document.
pub fn read_raw_fields(text: &str, names: &[&str]) -> (r: Result<Vec<Option<String>>, String>)
    ensures
        match r {
            Ok(raw) => raw_fields(text@, names_model(names@)) == Ok::<
                Seq<Option<Seq<char>>>,
                Seq<char>,
            >(raw_model(raw@)),
            Err(reason) => raw_fields(text@, names_model(names@)) == Err::<
                Seq<Option<Seq<char>>>,
                Seq<char>,
            >(reason@),
        },
{
    match json_object(text) {
        Ok(entries) => {
            let ghost all = entries_model(entries@);
            let ghost wanted = names_model(names@);
            let mut n: usize = 0;
            proof {
                assert(wanted.skip(0) =~= wanted);
            }
            while n < names.len()
                invariant
                    n <= names.len(),
                    all == entries_model(entries@),
                    wanted == names_model(names@),
                    spec_json_object(text@) == Ok::<Seq<(Seq<char>, Seq<char>)>, Seq<char>>(all),
                    first_named_twice(all, wanted) == first_named_twice(all, wanted.skip(n as int)),
                decreases names.len() - n,
            {
                proof {
                    assert(wanted.skip(n as int).first() == names@[n as int]@);
                    assert(wanted.skip(n as int).drop_first() =~= wanted.skip(n as int + 1));
                }
                if is_named_twice(&entries, names[n]) {
                    return Err(duplicate(names[n]));
                }
                n += 1;
            }
            proof {
                assert(wanted.skip(n as int).len() == 0);
            }
            let mut raw: Vec<Option<String>> = Vec::new();
            let mut i: usize = 0;
            while i < names.len()
                invariant
                    i <= names.len(),
                    raw@.len() == i,
                    forall|j: int|
                        0 <= j < i ==> raw_model(raw@)[j] == field_value(
                            entries_model(entries@),
                            names@[j]@,
                        ),
                decreases names.len() - i,
            {
                let found = find_field(&entries, names[i]);
                let ghost before = raw@;
                raw.push(found);
                proof {
                    assert forall|j: int| 0 <= j < i + 1 implies raw_model(raw@)[j] == field_value(
                        entries_model(entries@),
                        names@[j]@,
                    ) by {
                        if j < i {
                            assert(raw@[j] == before[j]);
                            assert(raw_model(before)[j] == raw_model(raw@)[j]);
                        }
                    }
                }
                i += 1;
            }
            proof {
                assert(raw_model(raw@) =~= Seq::new(
                    names_model(names@).len(),
                    |i: int| field_value(entries_model(entries@), names_model(names@)[i]),
                ));
            }
            Ok(raw)
        },
        Err(reason) => match json_array(text) {
            Ok(items) => {
                if items.len() < names.len() {
                    Err("invalid length: too few elements".to_owned())
                } else if items.len() > names.len() {
                    Err("trailing characters".to_owned())
                } else {
                    let mut raw: Vec<Option<String>> = Vec::new();
                    let mut i: usize = 0;
                    while i < items.len()
                        invariant
                            i <= items.len(),
                            raw@.len() == i,
                            forall|j: int|
                                0 <= j < i ==> raw_model(raw@)[j] == Some(texts_model(items@)[j]),
                        decreases items.len() - i,
                    {
                        let ghost before = raw@;
                        raw.push(Some(items[i].clone()));
                        proof {
                            assert forall|j: int| 0 <= j < i + 1 implies raw_model(raw@)[j] == Some(
                                texts_model(items@)[j],
                            ) by {
                                if j < i {
                                    assert(raw@[j] == before[j]);
                                    assert(raw_model(before)[j] == raw_model(raw@)[j]);
                                }
                            }
                        }
                        i += 1;
                    }
                    proof {
                        assert(raw_model(raw@) =~= Seq::new(
                            names_model(names@).len(),
                            |i: int| Some(texts_model(items@)[i]),
                        ));
                    }
                    Ok(raw)
                }
            },
            Err(_) => Err(reason),
        },
    }
}

/// One creator as a document gives it: the address still as text.
#[derive(Debug)]
pub struct CreatorInput {
    pub address: String,
    pub verified: bool,
    pub share: u8,
}

/// The mathematical model of a `CreatorInput`.
pub ghost struct CreatorInputModel {
    pub address: Seq<char>,
    pub verified: bool,
    pub share: u8,
}

impl View for CreatorInput {
    type V = CreatorInputModel;

    open spec fn view(&self) -> CreatorInputModel {
        CreatorInputModel { address: self.address@, verified: self.verified, share: self.share }
    }
}

/// The fields of a metadata document, typed but not yet validated.
#[derive(Debug)]
pub struct MetadataInput {
    pub name: String,
    pub symbol: String,
    pub uri: String,
    pub seller_fee_basis_points: u16,
    pub creators: Option<Vec<CreatorInput>>,
    pub primary_sale_happened: bool,
    pub is_mutable: bool,
}

/// The mathematical model of a `MetadataInput`.
pub ghost struct MetadataInputModel {
    pub name: Seq<char>,
    pub symbol: Seq<char>,
    pub uri: Seq<char>,
    pub seller_fee_basis_points: u16,
    pub creators: Option<Seq<CreatorInputModel>>,
    pub primary_sale_happened: bool,
    pub is_mutable: bool,
}

/// A list of creators as the list of their models.
pub open spec fn creator_inputs_model(creators: Seq<CreatorInput>) -> Seq<CreatorInputModel> {
    Seq::new(creators.len(), |i: int| creators[i]@)
}

impl View for MetadataInput {
    type V = MetadataInputModel;

    open spec fn view(&self) -> MetadataInputModel {
        MetadataInputModel {
            name: self.name@,
            symbol: self.symbol@,
            uri: self.uri@,
            seller_fee_basis_points: self.seller_fee_basis_points,
            creators: match self.creators {
                Some(creators) => Some(creator_inputs_model(creators@)),
                None => None,
            },
            primary_sale_happened: self.primary_sale_happened,
            is_mutable: self.is_mutable,
        }
    }
}

/// The fields of a creator, in the order in which an array gives them.
pub open spec fn creator_field_names() -> Seq<Seq<char>> {
    seq!["address"@, "verified"@, "share"@]
}

/// The fields of a metadata document, in the order in which an array gives
/// them.
pub open spec fn metadata_field_names() -> Seq<Seq<char>> {
    seq![
        "name"@,
        "symbol"@,
        "uri"@,
        "seller_fee_basis_points"@,
        "creators"@,
        "primary_sale_happened"@,
        "is_mutable"@,
    ]
}

/// The creator that a document describes: all three fields are required.
pub open spec fn creator_input(text: Seq<char>) -> Result<CreatorInputModel, Seq<char>> {
    match raw_fields(text, creator_field_names()) {
        Err(reason) => Err(reason),
        Ok(raw) => match required_text(raw[0], "address"@) {
            Err(reason) => Err(reason),
            Ok(address) => match required_bool(raw[1], "verified"@) {
                Err(reason) => Err(reason),
                Ok(verified) => match required_u8(raw[2], "share"@) {
                    Err(reason) => Err(reason),
                    Ok(share) => Ok(CreatorInputModel { address, verified, share }),
                },
            },
        },
    }
}

/// The creators that a list of documents describes, or the complaint about
/// the first of them that describes none.
pub open spec fn creator_inputs(items: Seq<Seq<char>>) -> Result<
    Seq<CreatorInputModel>,
    Seq<char>,
>
    decreases items.len(),
{
    if items.len() == 0 {
        Ok(Seq::empty())
    } else {
        match creator_inputs(items.drop_last()) {
            Err(reason) => Err(reason),
            Ok(creators) => match creator_input(items.last()) {
                Err(reason) => Err(reason),
                Ok(creator) => Ok(creators.push(creator)),
            },
        }
    }
}

/// The creators field: absent or `null` for none, else an array of creators.
pub open spec fn optional_creators(raw: Option<Seq<char>>) -> Result<
    Option<Seq<CreatorInputModel>>,
    Seq<char>,
> {
    match raw {
        None => Ok(None),
        Some(text) => if text == "null"@ {
            Ok(None)
        } else {
            match spec_json_array(text) {
                Err(reason) => Err(reason),
                Ok(items) => match creator_inputs(items) {
                    Err(reason) => Err(reason),
                    Ok(creators) => Ok(Some(creators)),
                },
            }
        },
    }
}

/// The typed fields of a metadata document, or the complaint about the first
/// field, in the order of `metadata_field_names`, that is missing or mistyped.
pub open spec fn metadata_input(text: Seq<char>) -> Result<MetadataInputModel, Seq<char>> {
    match raw_fields(text, metadata_field_names()) {
        Err(reason) => Err(reason),
        Ok(raw) => match required_text(raw[0], "name"@) {
            Err(reason) => Err(reason),
            Ok(name) => match required_text(raw[1], "symbol"@) {
                Err(reason) => Err(reason),
                Ok(symbol) => match required_text(raw[2], "uri"@) {
                    Err(reason) => Err(reason),
                    Ok(uri) => match required_u16(raw[3], "seller_fee_basis_points"@) {
                        Err(reason) => Err(reason),
                        Ok(seller_fee_basis_points) => match optional_creators(raw[4]) {
                            Err(reason) => Err(reason),
                            Ok(creators) => match required_bool(raw[5], "primary_sale_happened"@) {
                                Err(reason) => Err(reason),
                                Ok(primary_sale_happened) => match required_bool(
                                    raw[6],
                                    "is_mutable"@,
                                ) {
                                    Err(reason) => Err(reason),
                                    Ok(is_mutable) => Ok(
                                        MetadataInputModel {
                                            name,
                                            symbol,
                                            uri,
                                            seller_fee_basis_points,
                                            creators,
                                            primary_sale_happened,
                                            is_mutable,
                                        },
                                    ),
                                },
                            },
                        },
                    },
                },
            },
        },
    }
}

/// The complaint about a missing field.
fn missing(name: &str) -> (reason: String)
    ensures
        reason@ == missing_field(name@),
{
    let mut reason = prefixed("missing field `", name);
    reason.append("`");
    reason
}

fn read_text(raw: &Option<String>, name: &str) -> (r: Result<String, String>)
    ensures
        match r {
            Ok(value) => required_text(raw_model(seq![*raw])[0], name@) == Ok::<
                Seq<char>,
                Seq<char>,
            >(value@),
            Err(reason) => required_text(raw_model(seq![*raw])[0], name@) == Err::<
                Seq<char>,
                Seq<char>,
            >(reason@),
        },
{
    match raw {
        Some(text) => json_string(text.as_str()),
        None => Err(missing(name)),
    }
}

fn read_u16(raw: &Option<String>, name: &str) -> (r: Result<u16, String>)
    ensures
        match r {
            Ok(value) => required_u16(raw_model(seq![*raw])[0], name@) == Ok::<u16, Seq<char>>(
                value,
            ),
            Err(reason) => required_u16(raw_model(seq![*raw])[0], name@) == Err::<u16, Seq<char>>(
                reason@,
            ),
        },
{
    match raw {
        Some(text) => json_u16(text.as_str()),
        None => Err(missing(name)),
    }
}

fn read_u8(raw: &Option<String>, name: &str) -> (r: Result<u8, String>)
    ensures
        match r {
            Ok(value) => required_u8(raw_model(seq![*raw])[0], name@) == Ok::<u8, Seq<char>>(value),
            Err(reason) => required_u8(raw_model(seq![*raw])[0], name@) == Err::<u8, Seq<char>>(
                reason@,
            ),
        },
{
    match raw {
        Some(text) => json_u8(text.as_str()),
        None => Err(missing(name)),
    }
}

fn read_bool(raw: &Option<String>, name: &str) -> (r: Result<bool, String>)
    ensures
        match r {
            Ok(value) => required_bool(raw_model(seq![*raw])[0], name@) == Ok::<bool, Seq<char>>(
                value,
            ),
            Err(reason) => required_bool(raw_model(seq![*raw])[0], name@) == Err::<
                bool,
                Seq<char>,
            >(reason@),
        },
{
    match raw {
        Some(text) => json_bool(text.as_str()),
        None => Err(missing(name)),
    }
}

/// Reads one creator from its document.
pub fn parse_creator_input(text: &str) -> (r: Result<CreatorInput, String>)
    ensures
        match r {
            Ok(creator) => creator_input(text@) == Ok::<CreatorInputModel, Seq<char>>(creator@),
            Err(reason) => creator_input(text@) == Err::<CreatorInputModel, Seq<char>>(reason@),
        },
{
    let names: [&str; 3] = ["address", "verified", "share"];
    proof {
        assert(names_model(names@) =~= creator_field_names());
    }
    let raw = match read_raw_fields(text, names.as_slice()) {
        Ok(raw) => raw,
        Err(reason) => { return Err(reason); },
    };
    proof {
        assert(raw_model(raw@).len() == 3);
        assert(raw_model(seq![raw@[0]])[0] == raw_model(raw@)[0]);
        assert(raw_model(seq![raw@[1]])[0] == raw_model(raw@)[1]);
        assert(raw_model(seq![raw@[2]])[0] == raw_model(raw@)[2]);
    }
    let address = match read_text(&raw[0], "address") {
        Ok(value) => value,
        Err(reason) => { return Err(reason); },
    };
    let verified = match read_bool(&raw[1], "verified") {
        Ok(value) => value,
        Err(reason) => { return Err(reason); },
    };
    let share = match read_u8(&raw[2], "share") {
        Ok(value) => value,
        Err(reason) => { return Err(reason); },
    };
    Ok(CreatorInput { address, verified, share })
}

/// Reads the creators of a document from the raw text of its field.
fn read_creators(raw: &Option<String>) -> (r: Result<Option<Vec<CreatorInput>>, String>)
    ensures
        match r {
            Ok(Some(creators)) => optional_creators(raw_model(seq![*raw])[0]) == Ok::<
                Option<Seq<CreatorInputModel>>,
                Seq<char>,
            >(Some(creator_inputs_model(creators@))),
            Ok(None) => optional_creators(raw_model(seq![*raw])[0]) == Ok::<
                Option<Seq<CreatorInputModel>>,
                Seq<char>,
            >(None),
            Err(reason) => optional_creators(raw_model(seq![*raw])[0]) == Err::<
                Option<Seq<CreatorInputModel>>,
                Seq<char>,
            >(reason@),
        },
{
    let text = match raw {
        Some(text) => text,
        None => { return Ok(None); },
    };
    if same_text(text.as_str(), "null") {
        return Ok(None);
    }
    let items = match json_array(text.as_str()) {
        Ok(items) => items,
        Err(reason) => { return Err(reason); },
    };
    let ghost all = texts_model(items@);
    let mut creators: Vec<CreatorInput> = Vec::new();
    let mut i: usize = 0;
    proof {
        assert(all.take(0) =~= Seq::<Seq<char>>::empty());
        assert(creator_inputs_model(creators@) =~= Seq::<CreatorInputModel>::empty());
    }
    while i < items.len()
        invariant
            i <= items.len(),
            all == texts_model(items@),
            raw_model(seq![*raw])[0] == Some(text@),
            text@ != "null"@,
            spec_json_array(text@) == Ok::<Seq<Seq<char>>, Seq<char>>(all),
            creator_inputs(all.take(i as int)) == Ok::<Seq<CreatorInputModel>, Seq<char>>(
                creator_inputs_model(creators@),
            ),
        decreases items.len() - i,
    {
        proof {
            assert(all.take(i as int + 1).drop_last() =~= all.take(i as int));
            assert(all.take(i as int + 1).last() == all[i as int]);
        }
        match parse_creator_input(items[i].as_str()) {
            Ok(creator) => {
                let ghost before = creators@;
                creators.push(creator);
                proof {
                    assert(creator_inputs_model(creators@) =~= creator_inputs_model(before).push(
                        creator@,
                    ));
                }
            },
            Err(reason) => {
                proof {
                    assert(all.take(i as int + 1).len() == i + 1);
                    assert(creator_inputs(all.take(i as int + 1)) == Err::<
                        Seq<CreatorInputModel>,
                        Seq<char>,
                    >(reason@));
                    lemma_creator_inputs_error_persists(all, i as int + 1, all.len() as int);
                    assert(all.take(all.len() as int) =~= all);
                }
                return Err(reason);
            },
        }
        i += 1;
    }
    proof {
        assert(all.take(i as int) =~= all);
    }
    Ok(Some(creators))
}

/// Once a prefix of a list of creator documents is refused, every longer
/// prefix is refused with the same complaint.
pub proof fn lemma_creator_inputs_error_persists(items: Seq<Seq<char>>, i: int, k: int)
    requires
        0 <= i <= k <= items.len(),
        creator_inputs(items.take(i)) is Err,
    ensures
        creator_inputs(items.take(k)) == creator_inputs(items.take(i)),
    decreases k - i,
{
    if i < k {
        lemma_creator_inputs_error_persists(items, i, k - 1);
        assert(items.take(k).drop_last() =~= items.take(k - 1));
    }
}

/// Reads the typed fields of a metadata document.
pub fn parse_metadata_input(text: &str) -> (r: Result<MetadataInput, String>)
    ensures
        match r {
            Ok(input) => metadata_input(text@) == Ok::<MetadataInputModel, Seq<char>>(input@),
            Err(reason) => metadata_input(text@) == Err::<MetadataInputModel, Seq<char>>(reason@),
        },
{
    let names: [&str; 7] = [
        "name",
        "symbol",
        "uri",
        "seller_fee_basis_points",
        "creators",
        "primary_sale_happened",
        "is_mutable",
    ];
    proof {
        assert(names_model(names@) =~= metadata_field_names());
    }
    let raw = match read_raw_fields(text, names.as_slice()) {
        Ok(raw) => raw,
        Err(reason) => { return Err(reason); },
    };
    proof {
        assert(raw_model(raw@).len() == 7);
        assert(raw_model(seq![raw@[0]])[0] == raw_model(raw@)[0]);
        assert(raw_model(seq![raw@[1]])[0] == raw_model(raw@)[1]);
        assert(raw_model(seq![raw@[2]])[0] == raw_model(raw@)[2]);
        assert(raw_model(seq![raw@[3]])[0] == raw_model(raw@)[3]);
        assert(raw_model(seq![raw@[4]])[0] == raw_model(raw@)[4]);
        assert(raw_model(seq![raw@[5]])[0] == raw_model(raw@)[5]);
        assert(raw_model(seq![raw@[6]])[0] == raw_model(raw@)[6]);
    }
    let name = match read_text(&raw[0], "name") {
        Ok(value) => value,
        Err(reason) => { return Err(reason); },
    };
    let symbol = match read_text(&raw[1], "symbol") {
        Ok(value) => value,
        Err(reason) => { return Err(reason); },
    };
    let uri = match read_text(&raw[2], "uri") {
        Ok(value) => value,
        Err(reason) => { return Err(reason); },
    };
    let seller_fee_basis_points = match read_u16(&raw[3], "seller_fee_basis_points") {
        Ok(value) => value,
        Err(reason) => { return Err(reason); },
    };
    let creators = match read_creators(&raw[4]) {
        Ok(value) => value,
        Err(reason) => { return Err(reason); },
    };
    let primary_sale_happened = match read_bool(&raw[5], "primary_sale_happened") {
        Ok(value) => value,
        Err(reason) => { return Err(reason); },
    };
    let is_mutable = match read_bool(&raw[6], "is_mutable") {
        Ok(value) => value,
        Err(reason) => { return Err(reason); },
    };
    Ok(
        MetadataInput {
            name,
            symbol,
            uri,
            seller_fee_basis_points,
            creators,
            primary_sale_happened,
            is_mutable,
        },
    )
}

} // verus!
