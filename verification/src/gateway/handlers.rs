//! What the gateway's webhook and health handlers answer.

use vstd::prelude::*;
use crate::text::{concat, owned};

verus! {

/// A message posted to the webhook, optionally within a session.
#[derive(Debug, Clone)]
pub struct WebhookRequest {
    pub message: String,
    pub session_id: Option<String>,
}

/// The webhook's answer: the agent's reply (or error) and the session it belongs to.
#[derive(Debug, Clone)]
pub struct WebhookResponse {
    pub response: String,
    pub session_id: Option<String>,
}

/// The health endpoint's answer.
#[derive(Debug, Clone)]
pub struct HealthResponse {
    pub status: String,
    pub version: String,
}

/// The lower-case hexadecimal digit of a value below 16.
pub open spec fn hex_digit(n: u8) -> char {
    if n < 10 {
        (48 + n) as char
    } else {
        (87 + n) as char
    }
}

/// The bytes as lower-case hexadecimal, two digits per byte, high nibble first.
pub open spec fn hex_of(bytes: Seq<u8>) -> Seq<char>
    decreases bytes.len(),
{
    if bytes.len() == 0 {
        Seq::empty()
    } else {
        seq![hex_digit(bytes[0] / 16), hex_digit(bytes[0] % 16)] + hex_of(bytes.drop_first())
    }
}

/// The random bytes with the bits of a version-4, RFC 4122 variant UUID set:
/// the high nibble of byte 6 becomes 4, the top two bits of byte 8 become `10`.
pub open spec fn v4_bytes(random: Seq<u8>) -> Seq<u8> {
    random.update(6, (random[6] & 0x0f) | 0x40).update(8, (random[8] & 0x3f) | 0x80)
}

/// The hyphenated lower-case text of the version-4 UUID built from 16 random bytes.
pub open spec fn uuid_text(random: Seq<u8>) -> Seq<char> {
    let v = v4_bytes(random);
    hex_of(v.subrange(0, 4)) + seq!['-'] + hex_of(v.subrange(4, 6)) + seq!['-'] + hex_of(
        v.subrange(6, 8),
    ) + seq!['-'] + hex_of(v.subrange(8, 10)) + seq!['-'] + hex_of(v.subrange(10, 16))
}

/// The string is a hyphenated version-4 UUID in lower case: 36 characters,
/// hyphens at positions 8, 13, 18 and 23, the version digit `4` at position 14,
/// the variant digit (one of `8`, `9`, `a`, `b`) at position 19, and lowercase
/// hexadecimal digits everywhere else.
pub open spec fn is_uuid_v4_text(s: Seq<char>) -> bool {
    &&& s.len() == 36
    &&& forall|i: int| 0 <= i < 36 ==> if i == 8 || i == 13 || i == 18 || i == 23 {
        s[i] == '-'
    } else {
        ('0' <= #[trigger] s[i] <= '9') || ('a' <= s[i] <= 'f')
    }
    &&& s[14] == '4'
    &&& (s[19] == '8' || s[19] == '9' || s[19] == 'a' || s[19] == 'b')
}

/// Calls `uuid::Builder::from_random_bytes(random).into_uuid().to_string()`,
/// which sets the version and variant bits of the bytes and writes the UUID
/// in hyphenated lower-case hexadecimal. The contract states that text exactly.
#[verifier::external_body]
fn uuid_from_random(random: [u8; 16]) -> (r: String)
    ensures
        r@ == uuid_text(random@),
{
    uuid::Builder::from_random_bytes(random).into_uuid().to_string()
}

proof fn lemma_hex_of(bytes: Seq<u8>)
    ensures
        hex_of(bytes).len() == 2 * bytes.len(),
        forall|i: int| 0 <= i < hex_of(bytes).len() ==> ('0' <= #[trigger] hex_of(bytes)[i] <= '9') || (
        'a' <= hex_of(bytes)[i] <= 'f'),
    decreases bytes.len(),
{
    if bytes.len() > 0 {
        lemma_hex_of(bytes.drop_first());
        let b = bytes[0];
        assert(b / 16 < 16 && b % 16 < 16);
    }
}

/// Every text built from random bytes is a version-4 UUID text.
pub proof fn law_uuid_text_is_v4(random: Seq<u8>)
    requires
        random.len() == 16,
    ensures
        is_uuid_v4_text(uuid_text(random)),
{
    let v = v4_bytes(random);
    let p0 = hex_of(v.subrange(0, 4));
    let p1 = hex_of(v.subrange(4, 6));
    let p2 = hex_of(v.subrange(6, 8));
    let p3 = hex_of(v.subrange(8, 10));
    let p4 = hex_of(v.subrange(10, 16));
    lemma_hex_of(v.subrange(0, 4));
    lemma_hex_of(v.subrange(4, 6));
    lemma_hex_of(v.subrange(6, 8));
    lemma_hex_of(v.subrange(8, 10));
    lemma_hex_of(v.subrange(10, 16));
    let s = uuid_text(random);
    assert(s =~= p0 + seq!['-'] + p1 + seq!['-'] + p2 + seq!['-'] + p3 + seq!['-'] + p4);
    let b6 = random[6];
    let b8 = random[8];
    let v6 = (b6 & 0x0f) | 0x40;
    let v8 = (b8 & 0x3f) | 0x80;
    assert(v6 / 16 == 4) by (bit_vector)
        requires
            v6 == (b6 & 0x0f) | 0x40,
    ;
    assert(8 <= v8 / 16 <= 11) by (bit_vector)
        requires
            v8 == (b8 & 0x3f) | 0x80,
    ;
    assert(v.subrange(6, 8)[0] == v6);
    assert(v.subrange(8, 10)[0] == v8);
    assert(p2[0] == hex_digit(v6 / 16));
    assert(p3[0] == hex_digit(v8 / 16));
    assert(s[14] == p2[0]);
    assert(s[19] == p3[0]);
    assert forall|i: int| 0 <= i < 36 implies if i == 8 || i == 13 || i == 18 || i == 23 {
        s[i] == '-'
    } else {
        ('0' <= #[trigger] s[i] <= '9') || ('a' <= s[i] <= 'f')
    } by {
        if i < 8 {
            assert(s[i] == p0[i]);
        } else if 8 < i < 13 {
            assert(s[i] == p1[i - 9]);
        } else if 13 < i < 18 {
            assert(s[i] == p2[i - 14]);
        } else if 18 < i < 23 {
            assert(s[i] == p3[i - 19]);
        } else if 23 < i {
            assert(s[i] == p4[i - 24]);
        }
    }
}

/// The session id that the 16 random bytes make: the text of the version-4
/// UUID built from them.
pub fn session_id_from_random(random: [u8; 16]) -> (r: String)
    ensures
        r@ == uuid_text(random@),
        is_uuid_v4_text(r@),
{
    proof {
        law_uuid_text_is_v4(random@);
    }
    uuid_from_random(random)
}

/// The session a webhook request belongs to: the one it names; otherwise a
/// fresh one made from the random bytes drawn for it; `None` when the request
/// names none and no random bytes could be drawn.
pub fn session_or_new(given: Option<String>, random: Option<[u8; 16]>) -> (r: Option<String>)
    ensures
        match (given, random) {
            (Some(s), _) => r == Some(s),
            (None, Some(b)) => r matches Some(id) && id@ == uuid_text(b@) && is_uuid_v4_text(id@),
            (None, None) => r is None,
        },
{
    match given {
        Some(s) => Some(s),
        None => match random {
            Some(b) => Some(session_id_from_random(b)),
            None => None,
        },
    }
}

/// The webhook's answer for `session_id` after the agent replied with
/// `outcome`: the reply itself, or the error prefixed with `Error: `.
pub fn webhook_reply(session_id: String, outcome: Result<String, String>) -> (r: WebhookResponse)
    ensures
        r.session_id == Some(session_id),
        match outcome {
            Ok(reply) => r.response == reply,
            Err(e) => r.response@ == "Error: "@ + e@,
        },
{
    let response = match outcome {
        Ok(reply) => reply,
        Err(e) => concat("Error: ", e.as_str()),
    };
    WebhookResponse { response, session_id: Some(session_id) }
}

impl HealthResponse {
    /// A healthy status, reporting `version`.
    pub fn healthy(version: &str) -> (r: HealthResponse)
        ensures
            r.status@ == "healthy"@,
            r.version@ == version@,
    {
        HealthResponse { status: owned("healthy"), version: owned(version) }
    }
}

/// The banner the gateway's root answers with.
pub fn banner() -> (r: &'static str)
    ensures
        r@ == "MiniBot Gateway v0.1.0"@,
{
    "MiniBot Gateway v0.1.0"
}

} // verus!
