//! Between a `Carrera` and its JSON text.

use vstd::prelude::*;
use vstd::string::*;
use crate::carrera::{Carrera, CarreraView, views};
use crate::id::{decimal_text, push_decimal};
use crate::json::{json_document, json_member, json_quoted, json_string, member, parse_document, quote, string_of};

verus! {

/// Why a body gives no record.
#[derive(Clone, Copy, Debug, PartialEq, Eq, Structural)]
pub enum DecodeError {
    /// The body is no JSON text.
    Malformed,
    /// The document is no object, or has no member `name` that is a string.
    MissingName,
    /// The document has a `name`, and no member `key` that is a string.
    MissingKey,
}

/// The record that two members give, each as found (or not) in a document.
/// An `id` in the document plays no part: the store assigns ids.
pub open spec fn record_of(name: Option<Seq<char>>, key: Option<Seq<char>>) -> Result<
    CarreraView,
    DecodeError,
> {
    match (name, key) {
        (None, _) => Err(DecodeError::MissingName),
        (Some(_), None) => Err(DecodeError::MissingKey),
        (Some(n), Some(k)) => Ok(CarreraView { id: None, name: n, key: k }),
    }
}

/// The text of the member `name` of `doc`, where it has one that is a string.
pub open spec fn text_member(doc: serde_json::Value, name: Seq<char>) -> Option<Seq<char>> {
    match json_member(doc, name) {
        Some(found) => json_string(found),
        None => None,
    }
}

/// The record that a parsed document gives.
pub open spec fn document_record(doc: serde_json::Value) -> Result<CarreraView, DecodeError> {
    record_of(text_member(doc, "name"@), text_member(doc, "key"@))
}

/// The record that a body gives.
pub open spec fn decoded(body: Seq<char>) -> Result<CarreraView, DecodeError> {
    match json_document(body) {
        None => Err(DecodeError::Malformed),
        Some(doc) => document_record(doc),
    }
}

/// Whether `r` is the executable form of `expected`.
pub open spec fn decodes_to(r: Result<Carrera, DecodeError>, expected: Result<CarreraView, DecodeError>) -> bool {
    match r {
        Ok(c) => expected == Ok::<CarreraView, DecodeError>(c@),
        Err(e) => expected == Err::<CarreraView, DecodeError>(e),
    }
}

/// The record with the given name and key, where both are there.
pub fn from_fields(name: Option<&str>, key: Option<&str>) -> (r: Result<Carrera, DecodeError>)
    ensures
        decodes_to(
            r,
            record_of(
                match name {
                    Some(n) => Some(n@),
                    None => None,
                },
                match key {
                    Some(k) => Some(k@),
                    None => None,
                },
            ),
        ),
{
    match name {
        None => Err(DecodeError::MissingName),
        Some(n) => match key {
            None => Err(DecodeError::MissingKey),
            Some(k) => Ok(Carrera { id: None, name: String::from_str(n), key: String::from_str(k) }),
        },
    }
}

fn text_of<'a>(doc: &'a serde_json::Value, name: &str) -> (r: Option<&'a str>)
    ensures
        match r {
            Some(text) => text_member(*doc, name@) == Some(text@),
            None => text_member(*doc, name@).is_none(),
        },
{
    match member(doc, name) {
        Some(found) => string_of(found),
        None => None,
    }
}

/// Reads a record from a parsed document.
pub fn from_document(doc: &serde_json::Value) -> (r: Result<Carrera, DecodeError>)
    ensures
        decodes_to(r, document_record(*doc)),
{
    from_fields(text_of(doc, "name"), text_of(doc, "key"))
}

/// Reads a record from the JSON text of a body.
pub fn decode(body: &str) -> (r: Result<Carrera, DecodeError>)
    ensures
        decodes_to(r, decoded(body@)),
{
    match parse_document(body) {
        Ok(doc) => from_document(&doc),
        Err(_) => Err(DecodeError::Malformed),
    }
}

/// How an id is written: in decimal, or `null` where there is none.
pub open spec fn id_field(id: Option<int>) -> Seq<char> {
    match id {
        Some(n) => decimal_text(n),
        None => "null"@,
    }
}

/// The JSON object of a record, given its two texts as JSON string literals.
pub open spec fn framed(id: Option<int>, name: Seq<char>, key: Seq<char>) -> Seq<char> {
    "{\"id\":"@ + id_field(id) + ",\"name\":"@ + name + ",\"key\":"@ + key + "}"@
}

/// The JSON text of a record: its members `id`, `name` and `key`, in this
/// order.
pub open spec fn encoded(c: CarreraView) -> Seq<char> {
    framed(c.id, json_quoted(c.name), json_quoted(c.key))
}

/// The JSON texts of `rows`, in order, with a comma between neighbours.
pub open spec fn joined(rows: Seq<CarreraView>) -> Seq<char>
    decreases rows.len(),
{
    if rows.len() == 0 {
        Seq::empty()
    } else if rows.len() == 1 {
        encoded(rows[0])
    } else {
        joined(rows.drop_last()) + ","@ + encoded(rows.last())
    }
}

/// The JSON array of `rows`.
pub open spec fn encoded_all(rows: Seq<CarreraView>) -> Seq<char> {
    "["@ + joined(rows) + "]"@
}

/// Appends to `out` the JSON object of a record whose `name` and `key` are
/// given as JSON string literals.
pub fn push_frame(out: &mut String, id: Option<i32>, name: &str, key: &str)
    ensures
        final(out)@ == old(out)@ + framed(
            match id {
                Some(n) => Some(n as int),
                None => None,
            },
            name@,
            key@,
        ),
{
    out.append("{\"id\":");
    match id {
        Some(n) => push_decimal(out, n),
        None => out.append("null"),
    }
    out.append(",\"name\":");
    out.append(name);
    out.append(",\"key\":");
    out.append(key);
    out.append("}");
    assert(out@ =~= old(out)@ + framed(
        match id {
            Some(n) => Some(n as int),
            None => None,
        },
        name@,
        key@,
    ));
}

fn quoted(text: &str) -> (r: String)
    ensures
        r@ == json_quoted(text@),
{
    match quote(text) {
        Ok(q) => q,
        Err(_) => String::new(),
    }
}

/// Appends the JSON text of `c` to `out`.
pub fn push_encoded(out: &mut String, c: &Carrera)
    ensures
        final(out)@ == old(out)@ + encoded(c@),
{
    let name: String = quoted(c.name.as_str());
    let key: String = quoted(c.key.as_str());
    push_frame(out, c.id, name.as_str(), key.as_str());
}

/// The JSON text of a record.
pub fn encode(c: &Carrera) -> (r: String)
    ensures
        r@ == encoded(c@),
{
    let mut out: String = String::new();
    push_encoded(&mut out, c);
    assert(out@ =~= encoded(c@));
    out
}

/// The JSON array of a run of records.
pub fn encode_all(rows: &Vec<Carrera>) -> (r: String)
    ensures
        r@ == encoded_all(views(rows@)),
{
    let mut out: String = String::from_str("[");
    let mut i: usize = 0;
    assert(views(rows@).take(0) =~= Seq::<CarreraView>::empty());
    assert(out@ =~= "["@ + joined(views(rows@).take(0)));
    while i < rows.len()
        invariant
            i <= rows.len(),
            out@ == "["@ + joined(views(rows@).take(i as int)),
        decreases rows.len() - i,
    {
        let ghost before = views(rows@).take(i as int);
        let ghost after = views(rows@).take(i + 1);
        assert(after.drop_last() =~= before);
        assert(after.last() == rows@[i as int]@);
        if i > 0 {
            out.append(",");
        }
        push_encoded(&mut out, &rows[i]);
        assert(out@ =~= "["@ + joined(after));
        i += 1;
    }
    assert(views(rows@).take(rows.len() as int) =~= views(rows@));
    out.append("]");
    out
}

} // verus!
