//! Reading the claims out of an identity token.
//!
//! An identity token is three segments joined by dots. The middle one is the
//! base64url text of a JSON object that holds the claims. Nothing here checks
//! the token's signature, issuer, audience or expiry: the claims are read, not
//! vouched for.

use crate::json::{bool_member, json_document, parse_json, read_bool, read_text, text_member};
use crate::text::{first_index, lacks, lemma_first_index_is};
use vstd::prelude::*;
use vstd::string::*;

verus! {

/// The claims about the signed-in user.
#[derive(Debug, Clone, PartialEq, Eq)]
pub struct GoogleUserInfo {
    /// The provider's stable identifier of the user.
    pub sub: String,
    pub email: String,
    pub name: String,
    pub picture: String,
    pub email_verified: bool,
}

/// The claims as mathematical values.
pub struct GoogleUserInfoView {
    pub sub: Seq<char>,
    pub email: Seq<char>,
    pub name: Seq<char>,
    pub picture: Seq<char>,
    pub email_verified: bool,
}

impl View for GoogleUserInfo {
    type V = GoogleUserInfoView;

    open spec fn view(&self) -> GoogleUserInfoView {
        GoogleUserInfoView {
            sub: self.sub@,
            email: self.email@,
            name: self.name@,
            picture: self.picture@,
            email_verified: self.email_verified,
        }
    }
}

/// Why an identity token could not be read.
#[derive(Clone, Copy, Debug, PartialEq, Eq, Structural)]
pub enum TokenDecodeError {
    /// The token does not consist of exactly three dot-separated segments.
    StructureInvalid,
    /// The middle segment is not base64 text.
    Base64Invalid,
    /// The decoded segment is not a JSON object with the required claims.
    SchemaInvalid,
}

impl TokenDecodeError {
    /// What to tell the user.
    pub open spec fn message_text(self) -> Seq<char> {
        match self {
            TokenDecodeError::StructureInvalid => "Invalid JWT format"@,
            TokenDecodeError::Base64Invalid => "Failed to decode JWT"@,
            TokenDecodeError::SchemaInvalid => "Failed to parse user info"@,
        }
    }

    /// What to tell the user.
    pub fn message(&self) -> (message: String)
        ensures
            message@ == self.message_text(),
    {
        match self {
            TokenDecodeError::StructureInvalid => "Invalid JWT format".to_owned(),
            TokenDecodeError::Base64Invalid => "Failed to decode JWT".to_owned(),
            TokenDecodeError::SchemaInvalid => "Failed to parse user info".to_owned(),
        }
    }
}

/// The byte of the dot that separates the segments.
pub const DOT: u8 = 0x2e;

/// The byte of the padding mark `=`.
pub const PAD: u8 = 0x3d;

/// The views of a list of byte strings.
pub open spec fn byte_strings(items: Seq<Vec<u8>>) -> Seq<Seq<u8>> {
    items.map_values(|item: Vec<u8>| item@)
}

/// The segments of `bytes`: what stands between its dots, in order. Text
/// without a dot is one segment, also when it is empty.
pub open spec fn segments(bytes: Seq<u8>) -> Seq<Seq<u8>>
    decreases bytes.len(),
{
    let dot = first_index(bytes, DOT) as int;
    if dot < bytes.len() {
        seq![bytes.take(dot)] + segments(bytes.skip(dot + 1))
    } else {
        seq![bytes]
    }
}

/// The standard-alphabet byte for a byte of the URL-safe alphabet: `-` becomes
/// `+`, `_` becomes `/`, every other byte stays.
pub open spec fn standard_byte(byte: u8) -> u8 {
    if byte == 0x2d {
        0x2b
    } else if byte == 0x5f {
        0x2f
    } else {
        byte
    }
}

/// How many padding marks bring a text of `length` bytes to a multiple of four.
pub open spec fn padding_length(length: nat) -> nat {
    ((4 - length % 4) % 4) as nat
}

/// A segment made ready for a standard base64 decoder: every byte moved to the
/// standard alphabet, then `=` appended up to the next multiple of four.
pub open spec fn normalized_segment(segment: Seq<u8>) -> Seq<u8> {
    segment.map_values(|byte: u8| standard_byte(byte)) + Seq::new(
        padding_length(segment.len()),
        |i: int| PAD,
    )
}

/// `base64::DecodeError`, why text is no base64. It is only made known here.
#[verifier::external_type_specification]
#[verifier::external_body]
pub struct ExBase64DecodeError(base64::DecodeError);

/// The bytes that `base64::decode` reads from `text`, if it accepts it.
pub uninterp spec fn base64_decoded(text: Seq<u8>) -> Option<Seq<u8>>;

/// Calls `base64::decode`, the decoder for the standard alphabet with
/// padding. It returns the decoded bytes, or an error when `text` is not such
/// base64. The contract only names the outcome: the same text gives the same
/// bytes.
#[verifier::external_body]
#[allow(deprecated)]
pub(crate) fn base64_decode(text: &[u8]) -> (decoded: Result<Vec<u8>, base64::DecodeError>)
    ensures
        decoded matches Ok(bytes) ==> base64_decoded(text@) == Some(bytes@),
        decoded is Err ==> base64_decoded(text@) is None,
{
    base64::decode(text)
}

/// The claims that a JSON document holds: all five are required, each with
/// its type. A document without one of them, or that is no object, holds none.
pub open spec fn claims_of(document: serde_json::Value) -> Option<GoogleUserInfoView> {
    match (
        text_member(document, "sub"@),
        text_member(document, "email"@),
        text_member(document, "name"@),
        text_member(document, "picture"@),
        bool_member(document, "email_verified"@),
    ) {
        (Some(sub), Some(email), Some(name), Some(picture), Some(email_verified)) => Some(
            GoogleUserInfoView { sub, email, name, picture, email_verified },
        ),
        _ => None,
    }
}

/// What reading the decoded payload gives: the claims, or `SchemaInvalid`
/// when the bytes are no JSON document or the document lacks a claim.
pub open spec fn payload_outcome(payload: Seq<u8>) -> Result<GoogleUserInfoView, TokenDecodeError> {
    match json_document(payload) {
        None => Err(TokenDecodeError::SchemaInvalid),
        Some(document) => match claims_of(document) {
            None => Err(TokenDecodeError::SchemaInvalid),
            Some(claims) => Ok(claims),
        },
    }
}

/// The bytes of a token: its UTF-8 encoding.
pub open spec fn token_bytes(token: Seq<char>) -> Seq<u8> {
    vstd::utf8::encode_utf8(token)
}

/// What decoding the token `bytes` gives.
pub open spec fn decode_outcome(bytes: Seq<u8>) -> Result<GoogleUserInfoView, TokenDecodeError> {
    let parts = segments(bytes);
    if parts.len() != 3 {
        Err(TokenDecodeError::StructureInvalid)
    } else {
        match base64_decoded(normalized_segment(parts[1])) {
            None => Err(TokenDecodeError::Base64Invalid),
            Some(payload) => payload_outcome(payload),
        }
    }
}

/// The view of a decoding result.
pub open spec fn decoded_view(decoded: Result<GoogleUserInfo, TokenDecodeError>) -> Result<
    GoogleUserInfoView,
    TokenDecodeError,
> {
    match decoded {
        Ok(claims) => Ok(claims@),
        Err(error) => Err(error),
    }
}

/// Splits `bytes` at its dots.
pub fn split_segments(bytes: &[u8]) -> (parts: Vec<Vec<u8>>)
    ensures
        byte_strings(parts@) == segments(bytes@),
{
    let mut parts: Vec<Vec<u8>> = Vec::new();
    let mut current: Vec<u8> = Vec::new();
    let mut start: usize = 0;
    let mut i: usize = 0;
    assert(bytes@.skip(0) =~= bytes@);
    assert(byte_strings(parts@) + segments(bytes@) =~= segments(bytes@));
    while i < bytes.len()
        invariant
            start <= i <= bytes.len(),
            current@ == bytes@.subrange(start as int, i as int),
            lacks(current@, DOT),
            segments(bytes@) == byte_strings(parts@) + segments(bytes@.skip(start as int)),
        decreases bytes.len() - i,
    {
        let byte = bytes[i];
        if byte == DOT {
            proof {
                let rest = bytes@.skip(start as int);
                assert forall|k: int| 0 <= k < i - start implies rest[k] != DOT by {
                    assert(rest[k] == current@[k]);
                }
                lemma_first_index_is(rest, DOT, i - start);
                assert(rest.take(i - start) =~= current@);
                assert(rest.skip(i - start + 1) =~= bytes@.skip(i + 1));
                assert(byte_strings(parts@.push(current)) =~= byte_strings(parts@) + seq![
                    current@,
                ]);
            }
            parts.push(current);
            current = Vec::new();
            start = i + 1;
            assert(current@ =~= bytes@.subrange(start as int, i + 1));
        } else {
            current.push(byte);
            assert(current@ =~= bytes@.subrange(start as int, i + 1));
        }
        i += 1;
    }
    proof {
        let rest = bytes@.skip(start as int);
        assert(rest =~= current@);
        lemma_first_index_is(rest, DOT, rest.len() as int);
        assert(segments(rest) =~= seq![rest]);
        assert(byte_strings(parts@.push(current)) =~= byte_strings(parts@) + seq![current@]);
    }
    parts.push(current);
    parts
}

/// Makes a segment ready for a standard base64 decoder.
pub fn normalize_segment(segment: &[u8]) -> (normal: Vec<u8>)
    ensures
        normal@ == normalized_segment(segment@),
{
    let mut normal: Vec<u8> = Vec::new();
    let mut i: usize = 0;
    while i < segment.len()
        invariant
            i <= segment.len(),
            normal@ == segment@.take(i as int).map_values(|byte: u8| standard_byte(byte)),
        decreases segment.len() - i,
    {
        let byte = segment[i];
        let moved: u8 = if byte == 0x2d {
            0x2b
        } else if byte == 0x5f {
            0x2f
        } else {
            byte
        };
        normal.push(moved);
        assert(normal@ =~= segment@.take(i + 1).map_values(|byte: u8| standard_byte(byte)));
        i += 1;
    }
    assert(segment@.take(segment.len() as int) =~= segment@);
    let missing: usize = (4 - segment.len() % 4) % 4;
    let ghost moved_all = normal@;
    let mut added: usize = 0;
    while added < missing
        invariant
            added <= missing,
            normal@ == moved_all + Seq::new(added as nat, |i: int| PAD),
        decreases missing - added,
    {
        normal.push(PAD);
        added += 1;
        assert(normal@ =~= moved_all + Seq::new(added as nat, |i: int| PAD));
    }
    normal
}

/// Reads the claims out of a JSON document: all five are required.
pub fn claims_from_json(document: &serde_json::Value) -> (claims: Option<GoogleUserInfo>)
    ensures
        match claims {
            Some(info) => claims_of(*document) == Some(info@),
            None => claims_of(*document) is None,
        },
{
    let sub = read_text(document, "sub");
    let email = read_text(document, "email");
    let name = read_text(document, "name");
    let picture = read_text(document, "picture");
    let email_verified = read_bool(document, "email_verified");
    match (sub, email, name, picture, email_verified) {
        (Some(sub), Some(email), Some(name), Some(picture), Some(email_verified)) => Some(
            GoogleUserInfo { sub, email, name, picture, email_verified },
        ),
        _ => None,
    }
}

/// Reads the claims out of the decoded payload of an identity token: the
/// bytes must be a JSON document that holds every claim.
pub fn claims_from_payload(payload: &[u8]) -> (decoded: Result<GoogleUserInfo, TokenDecodeError>)
    ensures
        decoded_view(decoded) == payload_outcome(payload@),
{
    match parse_json(payload) {
        Err(_) => Err(TokenDecodeError::SchemaInvalid),
        Ok(document) => match claims_from_json(&document) {
            None => Err(TokenDecodeError::SchemaInvalid),
            Some(claims) => Ok(claims),
        },
    }
}

/// Decodes an identity token into the claims of its payload.
///
/// The token must consist of exactly three dot-separated segments, else the
/// result is `StructureInvalid`. The middle one is moved to the standard
/// base64 alphabet and padded, then decoded (`Base64Invalid` when that
/// fails), then read as a JSON object with the five claims (`SchemaInvalid`
/// when it is none). The other two segments are not looked at.
pub fn decode_id_token(id_token: String) -> (decoded: Result<GoogleUserInfo, TokenDecodeError>)
    ensures
        decoded_view(decoded) == decode_outcome(token_bytes(id_token@)),
        decoded == Err::<GoogleUserInfo, TokenDecodeError>(TokenDecodeError::StructureInvalid)
            <==> segments(token_bytes(id_token@)).len() != 3,
{
    let bytes = id_token.as_str().as_bytes();
    let parts = split_segments(bytes);
    if parts.len() != 3 {
        return Err(TokenDecodeError::StructureInvalid);
    }
    assert(byte_strings(parts@)[1] == parts@[1]@);
    let normal = normalize_segment(parts[1].as_slice());
    match base64_decode(normal.as_slice()) {
        Err(_) => Err(TokenDecodeError::Base64Invalid),
        Ok(payload) => claims_from_payload(payload.as_slice()),
    }
}

/// A segment with the padding that brings it to a multiple of four bytes.
pub open spec fn padded_segment(segment: Seq<u8>) -> Seq<u8> {
    segment + Seq::new(padding_length(segment.len()), |i: int| PAD)
}

/// A token written out from its three segments.
pub open spec fn joined_token(header: Seq<u8>, payload: Seq<u8>, signature: Seq<u8>) -> Seq<u8> {
    header + seq![DOT] + payload + seq![DOT] + signature
}

/// Normalizing is idempotent: a segment that is already in the standard
/// alphabet and already padded is left as it is.
pub proof fn lemma_normalizing_is_idempotent(segment: Seq<u8>)
    ensures
        normalized_segment(normalized_segment(segment)) == normalized_segment(segment),
{
    let once = normalized_segment(segment);
    assert(padding_length(once.len()) == 0);
    assert forall|i: int| 0 <= i < once.len() implies standard_byte(once[i]) == once[i] by {
        if i < segment.len() {
            assert(once[i] == standard_byte(segment[i]));
        } else {
            assert(once[i] == PAD);
        }
    }
    assert(normalized_segment(once) =~= once);
}

/// Padding that is already there changes nothing: a padded segment is
/// normalized to the same text as the segment without its padding.
pub proof fn lemma_normalizing_ignores_padding(segment: Seq<u8>)
    ensures
        normalized_segment(padded_segment(segment)) == normalized_segment(segment),
{
    let padded = padded_segment(segment);
    assert(padding_length(padded.len()) == 0);
    assert forall|i: int| 0 <= i < padded.len() implies standard_byte(padded[i])
        == normalized_segment(segment)[i] by {
        if i >= segment.len() {
            assert(padded[i] == PAD);
        }
    }
    assert(normalized_segment(padded) =~= normalized_segment(segment));
}

/// A token written out from three segments without dots has exactly those
/// three segments.
pub proof fn lemma_segments_of_joined_token(
    header: Seq<u8>,
    payload: Seq<u8>,
    signature: Seq<u8>,
)
    requires
        lacks(header, DOT),
        lacks(payload, DOT),
        lacks(signature, DOT),
    ensures
        segments(joined_token(header, payload, signature)) == seq![header, payload, signature],
{
    let token = joined_token(header, payload, signature);
    let tail = payload + seq![DOT] + signature;
    assert forall|i: int| 0 <= i < header.len() implies token[i] != DOT by {
        assert(token[i] == header[i]);
    }
    assert(token[header.len() as int] == DOT);
    lemma_first_index_is(token, DOT, header.len() as int);
    assert(token.take(header.len() as int) =~= header);
    assert(token.skip(header.len() as int + 1) =~= tail);
    assert forall|i: int| 0 <= i < payload.len() implies tail[i] != DOT by {
        assert(tail[i] == payload[i]);
    }
    assert(tail[payload.len() as int] == DOT);
    lemma_first_index_is(tail, DOT, payload.len() as int);
    assert(tail.take(payload.len() as int) =~= payload);
    assert(tail.skip(payload.len() as int + 1) =~= signature);
    lemma_first_index_is(signature, DOT, signature.len() as int);
    assert(segments(signature) =~= seq![signature]);
    assert(segments(tail) =~= seq![payload, signature]);
    assert(segments(token) =~= seq![header, payload, signature]);
}

/// Decoding does not depend on whether the payload comes padded: a token
/// whose payload already carries its `=` padding decodes to the same result
/// as the token without it.
pub proof fn lemma_decoding_ignores_padding(
    header: Seq<u8>,
    payload: Seq<u8>,
    signature: Seq<u8>,
)
    requires
        lacks(header, DOT),
        lacks(payload, DOT),
        lacks(signature, DOT),
    ensures
        decode_outcome(joined_token(header, padded_segment(payload), signature)) == decode_outcome(
            joined_token(header, payload, signature),
        ),
{
    let padded = padded_segment(payload);
    assert forall|i: int| 0 <= i < padded.len() implies padded[i] != DOT by {
        if i < payload.len() {
            assert(padded[i] == payload[i]);
        }
    }
    lemma_segments_of_joined_token(header, padded, signature);
    lemma_segments_of_joined_token(header, payload, signature);
    lemma_normalizing_ignores_padding(payload);
}

/// A token is rejected for its structure exactly when it does not have three
/// segments, that is when it does not hold exactly two dots.
pub proof fn lemma_structure_is_decided_by_segments(bytes: Seq<u8>)
    ensures
        decode_outcome(bytes) == Err::<GoogleUserInfoView, TokenDecodeError>(
            TokenDecodeError::StructureInvalid,
        ) <==> segments(bytes).len() != 3,
{
}

} // verus!
