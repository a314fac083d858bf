//! Entity identifiers and their two outside forms: text and binary.
//!
//! An identifier is a number of 128 bits. Collections that keep identifiers
//! as text hold the hyphenated lower-case form; collections that keep them as
//! binary hold the sixteen bytes under an application-defined subtype. A key
//! written in the form that a collection does not use finds nothing there, so
//! every query names the form it is written in (see [`Encoding`]).
use vstd::prelude::*;
use crate::radix::{
    capacity, hex_bytes, hex_text, is_hex, is_lower_hex, lemma_capacity_sixteen,
    lemma_hex_bytes_of_text, lemma_hex_text_of_bytes, lemma_octets_len, lemma_octets_packed,
    lemma_packed_bound, lemma_packed_octets, octets, pack, packed,
};

verus! {

/// The subtype number under which the binary form is tagged.
pub const IDENTIFIER_SUBTYPE: u8 = 0;

/// The 128-bit value that names one entity, whatever form it is stored in.
#[derive(Clone, Copy, Debug, PartialEq, Eq, Structural, Hash)]
pub struct Identifier {
    pub value: u128,
}

/// The key that the store itself gives a record: a number of 96 bits.
#[derive(Clone, Copy, Debug, PartialEq, Eq, Structural, Hash)]
pub struct RecordId {
    pub value: u128,
}

/// The form in which a collection keeps identifiers.
#[derive(Clone, Copy, Debug, PartialEq, Eq, Structural, Hash)]
pub enum Encoding {
    Text,
    Binary,
}

/// The binary form of an identifier: a subtype tag and sixteen bytes.
#[derive(Clone, Debug, PartialEq, Eq)]
pub struct BinaryForm {
    pub subtype: u8,
    pub bytes: Vec<u8>,
}

#[derive(Clone, Copy, Debug, PartialEq, Eq, Structural)]
pub enum IdentityError {
    /// The text or the binary value is not a well-formed identifier.
    MalformedIdentifier,
}

/// Thirty-two digits set out in groups of 8, 4, 4, 4 and 12 with hyphens between.
pub open spec fn grouped(digits: Seq<char>) -> Seq<char> {
    digits.subrange(0, 8) + seq!['-'] + digits.subrange(8, 12) + seq!['-'] + digits.subrange(
        12,
        16,
    ) + seq!['-'] + digits.subrange(16, 20) + seq!['-'] + digits.subrange(20, 32)
}

/// The thirty-two characters of a grouped text that are not at a hyphen's place.
pub open spec fn ungrouped(text: Seq<char>) -> Seq<char> {
    text.subrange(0, 8) + text.subrange(9, 13) + text.subrange(14, 18) + text.subrange(19, 23)
        + text.subrange(24, 36)
}

/// Thirty-six characters: hexadecimal digits, with hyphens at places 8, 13, 18 and 23.
pub open spec fn is_grouped(text: Seq<char>) -> bool {
    &&& text.len() == 36
    &&& text[8] == '-'
    &&& text[13] == '-'
    &&& text[18] == '-'
    &&& text[23] == '-'
    &&& is_hex(ungrouped(text))
}

/// The nine characters `urn:uuid:`, each letter in either case.
pub open spec fn is_urn_prefix(prefix: Seq<char>) -> bool {
    &&& prefix.len() == 9
    &&& (prefix[0] == 'u' || prefix[0] == 'U')
    &&& (prefix[1] == 'r' || prefix[1] == 'R')
    &&& (prefix[2] == 'n' || prefix[2] == 'N')
    &&& prefix[3] == ':'
    &&& (prefix[4] == 'u' || prefix[4] == 'U')
    &&& (prefix[5] == 'u' || prefix[5] == 'U')
    &&& (prefix[6] == 'i' || prefix[6] == 'I')
    &&& (prefix[7] == 'd' || prefix[7] == 'D')
    &&& prefix[8] == ':'
}

/// The thirty-two hexadecimal digits that a well-formed identifier text holds.
///
/// Four shapes are well formed: the bare digits; the digits grouped with
/// hyphens; the grouped digits in braces; the grouped digits after `urn:uuid:`.
pub open spec fn digits_of(text: Seq<char>) -> Option<Seq<char>> {
    if text.len() == 32 {
        if is_hex(text) {
            Some(text)
        } else {
            None
        }
    } else if text.len() == 36 {
        if is_grouped(text) {
            Some(ungrouped(text))
        } else {
            None
        }
    } else if text.len() == 38 && text[0] == '{' && text[37] == '}' {
        if is_grouped(text.subrange(1, 37)) {
            Some(ungrouped(text.subrange(1, 37)))
        } else {
            None
        }
    } else if text.len() == 45 && is_urn_prefix(text.subrange(0, 9)) {
        if is_grouped(text.subrange(9, 45)) {
            Some(ungrouped(text.subrange(9, 45)))
        } else {
            None
        }
    } else {
        None
    }
}

/// The value that an identifier text denotes, if it is well formed.
pub open spec fn parsed(text: Seq<char>) -> Option<u128> {
    match digits_of(text) {
        Some(digits) => Some(packed(hex_bytes(digits)) as u128),
        None => None,
    }
}

/// The text under which a value is stored and shown: grouped lower-case digits.
pub open spec fn canonical(value: u128) -> Seq<char> {
    grouped(hex_text(octets(value as nat, 16)))
}

/// A text in the form that [`canonical`] writes.
pub open spec fn is_canonical(text: Seq<char>) -> bool {
    is_grouped(text) && is_lower_hex(ungrouped(text))
}

/// What [`Identifier::decode`] returns.
pub open spec fn decoded(text: Seq<char>) -> Result<Identifier, IdentityError> {
    match parsed(text) {
        Some(value) => Ok(Identifier { value }),
        None => Err(IdentityError::MalformedIdentifier),
    }
}

/// A binary value that holds an identifier: the right tag and sixteen bytes.
pub open spec fn is_binary_identifier(subtype: u8, bytes: Seq<u8>) -> bool {
    subtype == IDENTIFIER_SUBTYPE && bytes.len() == 16
}

/// What [`Identifier::from_binary`] returns.
pub open spec fn unbound(subtype: u8, bytes: Seq<u8>) -> Result<Identifier, IdentityError> {
    if is_binary_identifier(subtype, bytes) {
        Ok(Identifier { value: packed(bytes) as u128 })
    } else {
        Err(IdentityError::MalformedIdentifier)
    }
}

/// A record key as text: twenty-four hexadecimal digits.
pub open spec fn is_record_text(text: Seq<char>) -> bool {
    text.len() == 24 && is_hex(text)
}

/// What [`RecordId::decode`] returns.
pub open spec fn record_decoded(text: Seq<char>) -> Result<RecordId, IdentityError> {
    if is_record_text(text) {
        Ok(RecordId { value: packed(hex_bytes(text)) as u128 })
    } else {
        Err(IdentityError::MalformedIdentifier)
    }
}

/// `uuid::Uuid::parse_str`, with the value read by `Uuid::as_u128`.
///
/// Claims that the parser accepts exactly the four shapes of [`digits_of`],
/// with digits in either case, and that the value is the one that the
/// thirty-two digits spell, most significant first.
#[verifier::external_body]
fn uuid_parse(text: &str) -> (value: Option<u128>)
    ensures
        value == parsed(text@),
{
    match uuid::Uuid::parse_str(text) {
        Ok(id) => Some(id.as_u128()),
        Err(_) => None,
    }
}

/// `Uuid::to_string` of `uuid::Uuid::from_u128(value)`.
///
/// Claims that the text is the grouped lower-case form of the value's sixteen bytes.
#[verifier::external_body]
fn uuid_text(value: u128) -> (text: String)
    ensures
        text@ == canonical(value),
{
    uuid::Uuid::from_u128(value).to_string()
}

/// `Uuid::as_bytes` of `uuid::Uuid::from_u128(value)`.
///
/// Claims that the bytes are the sixteen bytes of the value, most significant first.
#[verifier::external_body]
fn uuid_bytes(value: u128) -> (bytes: Vec<u8>)
    ensures
        bytes@ == octets(value as nat, 16),
{
    uuid::Uuid::from_u128(value).as_bytes().to_vec()
}

/// A value as a random draw gives it: the four bits of the version spell 4,
/// the two bits of the variant spell the RFC's, and the other 122 bits are
/// as they fell.
pub open spec fn is_random_draw(value: u128) -> bool {
    value & 0x0000_0000_0000_f000_c000_0000_0000_0000
        == 0x0000_0000_0000_4000_8000_0000_0000_0000
}

/// `bson::oid::ObjectId::parse_str`, with the twelve bytes read by `ObjectId::bytes`.
///
/// Claims that exactly the texts of twenty-four hexadecimal digits, in
/// either case, are accepted, and that each byte is spelled by two digits.
#[verifier::external_body]
fn object_id_bytes(text: &str) -> (bytes: Option<Vec<u8>>)
    ensures
        bytes is Some <==> is_record_text(text@),
        bytes matches Some(b) ==> b@ == hex_bytes(text@),
{
    match bson::oid::ObjectId::parse_str(text) {
        Ok(id) => Some(id.bytes().to_vec()),
        Err(_) => None,
    }
}

impl Identifier {
    /// A new identifier, drawn at random as a version 4 identifier is.
    pub fn fresh() -> (id: Identifier)
        ensures
            is_random_draw(id.value),
    {
        Identifier { value: uuid_random() }
    }

    /// Reads an identifier from text, in any of the four well-formed shapes.
    pub fn decode(text: &str) -> (outcome: Result<Identifier, IdentityError>)
        ensures
            outcome == decoded(text@),
    {
        match uuid_parse(text) {
            Some(value) => Ok(Identifier { value }),
            None => Err(IdentityError::MalformedIdentifier),
        }
    }

    /// Writes the identifier in its canonical text form.
    pub fn encode(&self) -> (text: String)
        ensures
            text@ == canonical(self.value),
    {
        uuid_text(self.value)
    }

    /// Writes the identifier in its binary form.
    pub fn to_binary(&self) -> (form: BinaryForm)
        ensures
            form.subtype == IDENTIFIER_SUBTYPE,
            form.bytes@ == octets(self.value as nat, 16),
    {
        BinaryForm { subtype: IDENTIFIER_SUBTYPE, bytes: uuid_bytes(self.value) }
    }

    /// Reads an identifier from its binary form.
    pub fn from_binary(form: &BinaryForm) -> (outcome: Result<Identifier, IdentityError>)
        ensures
            outcome == unbound(form.subtype, form.bytes@),
    {
        if form.subtype == IDENTIFIER_SUBTYPE && form.bytes.len() == 16 {
            proof {
                lemma_packed_bound(form.bytes@);
                lemma_capacity_sixteen();
            }
            Ok(Identifier { value: pack(&form.bytes) })
        } else {
            Err(IdentityError::MalformedIdentifier)
        }
    }
}

impl RecordId {
    /// Reads a record key from its text form.
    pub fn decode(text: &str) -> (outcome: Result<RecordId, IdentityError>)
        ensures
            outcome == record_decoded(text@),
    {
        match object_id_bytes(text) {
            Some(bytes) => {
                assert(bytes@.len() == 12);
                Ok(RecordId { value: pack(&bytes) })
            },
            None => Err(IdentityError::MalformedIdentifier),
        }
    }
}

/// `uuid::Uuid::new_v4`, read by `Uuid::as_u128`. The value is random.
///
/// Claims of every value that comes back what the outside function's last
/// step fixes: it masks the draw so that the version is 4 and the variant is
/// the RFC's. Nothing is claimed of the other bits. Where the system has no
/// random bytes to give, the outside function panics, and so does this one.
#[verifier::external_body]
fn uuid_random() -> (value: u128)
    ensures
        is_random_draw(value),
{
    uuid::Uuid::new_v4().as_u128()
}

proof fn lemma_ungrouped_grouped(digits: Seq<char>)
    requires
        digits.len() == 32,
    ensures
        grouped(digits).len() == 36,
        grouped(digits)[8] == '-',
        grouped(digits)[13] == '-',
        grouped(digits)[18] == '-',
        grouped(digits)[23] == '-',
        ungrouped(grouped(digits)) == digits,
{
    assert(ungrouped(grouped(digits)) =~= digits);
}

proof fn lemma_grouped_ungrouped(text: Seq<char>)
    requires
        is_grouped(text),
    ensures
        ungrouped(text).len() == 32,
        grouped(ungrouped(text)) == text,
{
    assert(grouped(ungrouped(text)) =~= text);
}

/// Decoding what was encoded gives the identifier back.
pub proof fn law_decode_inverts_encode(id: Identifier)
    ensures
        is_canonical(canonical(id.value)),
        decoded(canonical(id.value)) == Ok::<Identifier, IdentityError>(id),
{
    let bytes = octets(id.value as nat, 16);
    let digits = hex_text(bytes);
    lemma_octets_len(id.value as nat, 16);
    lemma_hex_bytes_of_text(bytes);
    lemma_ungrouped_grouped(digits);
    lemma_capacity_sixteen();
    lemma_packed_octets(id.value as nat, 16);
}

/// Encoding what was decoded from a canonical text gives that text back.
pub proof fn law_encode_inverts_decode(text: Seq<char>)
    requires
        is_canonical(text),
    ensures
        decoded(text) is Ok,
        canonical(decoded(text).unwrap().value) == text,
{
    let digits = ungrouped(text);
    lemma_grouped_ungrouped(text);
    lemma_hex_text_of_bytes(digits);
    let bytes = hex_bytes(digits);
    lemma_packed_bound(bytes);
    lemma_capacity_sixteen();
    lemma_octets_packed(bytes);
}

/// Whatever well-formed shape a text has, decoding it, encoding the result
/// and decoding again gives the same identifier: encoding settles on the
/// canonical form.
pub proof fn law_encoding_settles(text: Seq<char>)
    requires
        decoded(text) is Ok,
    ensures
        decoded(canonical(decoded(text).unwrap().value)) == decoded(text),
{
    law_decode_inverts_encode(decoded(text).unwrap());
}

/// Reading the binary form that was written gives the identifier back.
pub proof fn law_unbind_inverts_bind(id: Identifier)
    ensures
        unbound(IDENTIFIER_SUBTYPE, octets(id.value as nat, 16)) == Ok::<Identifier, IdentityError>(
            id,
        ),
{
    lemma_octets_len(id.value as nat, 16);
    lemma_capacity_sixteen();
    lemma_packed_octets(id.value as nat, 16);
}

/// Writing the binary form of what was read from one gives the same bytes back.
pub proof fn law_bind_inverts_unbind(subtype: u8, bytes: Seq<u8>)
    requires
        is_binary_identifier(subtype, bytes),
    ensures
        unbound(subtype, bytes) is Ok,
        octets(unbound(subtype, bytes).unwrap().value as nat, 16) == bytes,
{
    lemma_packed_bound(bytes);
    lemma_capacity_sixteen();
    lemma_octets_packed(bytes);
}

} // verus!
