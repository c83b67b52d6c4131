use vstd::prelude::*;
use vstd::string::StringExecFns;
use crate::error::{AASCheckError, CheckError};

verus! {

#[verifier::external_type_specification]
#[verifier::external_body]
pub struct ExValue(serde_json::Value);

/// The compact JSON text that `serde_json::Value`'s `Display` writes for `v`.
/// It stands for what the value holds: two values with the same text are the
/// same JSON document.
pub uninterp spec fn value_text(v: serde_json::Value) -> Seq<char>;

/// What parsing `s` with `serde_json::from_str` into a `Value` yields: the
/// compact text of the value, or the parser's error message.
pub uninterp spec fn parse_of(s: Seq<char>) -> Result<Seq<char>, Seq<char>>;

/// Relies on `serde_json::from_str::<Value>`: it parses one JSON document,
/// and on failure its error's `Display` gives the message.
#[verifier::external_body]
fn parse_json(text: &str) -> (r: Result<serde_json::Value, String>)
    ensures
        match parse_of(text@) {
            Ok(c) => r is Ok && value_text(r->Ok_0) == c,
            Err(m) => r is Err && r->Err_0@ == m,
        },
{
    serde_json::from_str::<serde_json::Value>(text).map_err(|e| e.to_string())
}

/// Relies on `Display` for `serde_json::Value`, which writes compact JSON.
#[verifier::external_body]
fn value_to_text(v: &serde_json::Value) -> (r: String)
    ensures
        r@ == value_text(*v),
{
    v.to_string()
}

/// A parsed document, given by its compact text, or the error that reading it gives.
pub open spec fn document_of(text: Seq<char>) -> Result<Seq<char>, CheckError> {
    match parse_of(text) {
        Ok(c) => Ok(c),
        Err(m) => Err(CheckError::MalformedJson(m)),
    }
}

/// `r` holds the document that `d` describes, or the same error.
pub open spec fn holds_document(r: Result<serde_json::Value, AASCheckError>, d: Result<Seq<char>, CheckError>) -> bool {
    match r {
        Ok(v) => d == Ok::<Seq<char>, CheckError>(value_text(v)),
        Err(e) => d == Err::<Seq<char>, CheckError>(e@),
    }
}

/// The parts joined with commas between them.
pub open spec fn joined(parts: Seq<Seq<char>>) -> Seq<char>
    decreases parts.len(),
{
    if parts.len() == 0 {
        Seq::empty()
    } else if parts.len() == 1 {
        parts[0]
    } else {
        joined(parts.drop_last()) + ","@ + parts.last()
    }
}

/// The compact text of an array whose elements have the texts `items`.
pub open spec fn array_text(items: Seq<Seq<char>>) -> Seq<char> {
    "["@ + joined(items) + "]"@
}

/// The compact text of one object member whose key needs no escaping.
pub open spec fn member_text(member: (Seq<char>, Seq<char>)) -> Seq<char> {
    "\""@ + member.0 + "\":"@ + member.1
}

/// The compact text of an object whose members, in order, have the given keys
/// and value texts.
pub open spec fn object_text(members: Seq<(Seq<char>, Seq<char>)>) -> Seq<char> {
    "{"@ + joined(members.map_values(|m: (Seq<char>, Seq<char>)| member_text(m))) + "}"@
}

/// A key that JSON text holds as it is: no control character, quote or backslash.
pub open spec fn plain_key(key: Seq<char>) -> bool {
    forall|i: int| 0 <= i < key.len() ==> (key[i] as u32) >= 0x20 && key[i] != '"' && key[i] != '\\'
}

/// `a` comes before `b` in the order of their characters (a prefix first),
/// which for strings is the order of their UTF-8 bytes.
pub open spec fn key_before(a: Seq<char>, b: Seq<char>) -> bool
    decreases a.len(),
{
    if b.len() == 0 {
        false
    } else if a.len() == 0 {
        true
    } else if a[0] != b[0] {
        (a[0] as u32) < (b[0] as u32)
    } else {
        key_before(a.drop_first(), b.drop_first())
    }
}

/// The members' keys are plain and strictly ascending.
pub open spec fn ordered_plain_keys(members: Seq<(String, serde_json::Value)>) -> bool {
    &&& forall|i: int| 0 <= i < members.len() ==> plain_key(#[trigger] members[i].0@)
    &&& forall|i: int| 0 <= i < members.len() - 1 ==> key_before(#[trigger] members[i].0@, members[i + 1].0@)
}

/// Relies on `serde_json::Value::Array` and on `Display` for `Value`, which
/// writes an array as its elements' compact texts between brackets, separated
/// by commas.
#[verifier::external_body]
fn array_of(items: Vec<serde_json::Value>) -> (r: serde_json::Value)
    ensures
        value_text(r) == array_text(items@.map_values(|v: serde_json::Value| value_text(v))),
{
    serde_json::Value::Array(items)
}

/// Relies on `serde_json::Value::Object`, built from the members by
/// `Map::from_iter`, and on `Display` for `Value`. The map keeps its keys in
/// ascending order, so members given in that order are written in it, each as
/// its quoted key, a colon and its value's compact text; plain keys are written
/// unescaped.
#[verifier::external_body]
fn object_of(members: Vec<(String, serde_json::Value)>) -> (r: serde_json::Value)
    requires
        ordered_plain_keys(members@),
    ensures
        value_text(r) == object_text(
            members@.map_values(|m: (String, serde_json::Value)| (m.0@, value_text(m.1))),
        ),
{
    serde_json::Value::Object(members.into_iter().collect())
}

/// The text of an environment with no shells, no concept descriptions, and the
/// single submodel whose text is `submodel`.
pub open spec fn envelope_text(submodel: Seq<char>) -> Seq<char> {
    object_text(
        seq![
            ("assetAdministrationShells"@, array_text(Seq::empty())),
            ("conceptDescriptions"@, array_text(Seq::empty())),
            ("submodels"@, array_text(seq![submodel])),
        ],
    )
}

/// Reads a JSON document from its text; text that is not JSON is a
/// `MalformedJson` error.
pub fn read_document(text: &str) -> (r: Result<serde_json::Value, AASCheckError>)
    ensures
        holds_document(r, document_of(text@)),
{
    match parse_json(text) {
        Ok(v) => Ok(v),
        Err(m) => Err(AASCheckError::MalformedJson(m)),
    }
}

/// Wraps a submodel into an environment with no shells, that submodel as its
/// only submodel, and no concept descriptions.
pub fn envelope(submodel: serde_json::Value) -> (r: serde_json::Value)
    ensures
        value_text(r) == envelope_text(value_text(submodel)),
{
    let ghost sub = value_text(submodel);
    let shells = array_of(Vec::new());
    let descriptions = array_of(Vec::new());
    let submodels = array_of(vec![submodel]);
    // The members are given in the ascending order in which the map keeps them.
    let members = vec![
        (String::from_str("assetAdministrationShells"), shells),
        (String::from_str("conceptDescriptions"), descriptions),
        (String::from_str("submodels"), submodels),
    ];
    proof {
        reveal_strlit("assetAdministrationShells");
        reveal_strlit("conceptDescriptions");
        reveal_strlit("submodels");
        assert(key_before(members@[0].0@, members@[1].0@));
        assert(key_before(members@[1].0@, members@[2].0@));
        assert(ordered_plain_keys(members@));
        assert(members@.map_values(|m: (String, serde_json::Value)| (m.0@, value_text(m.1))) =~= seq![
            ("assetAdministrationShells"@, array_text(Seq::empty())),
            ("conceptDescriptions"@, array_text(Seq::empty())),
            ("submodels"@, array_text(seq![sub])),
        ]);
    }
    object_of(members)
}

} // verus!
