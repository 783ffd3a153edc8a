//! Webhook signatures: the Ed25519 key derived from the app secret, the signed message,
//! the check of an incoming request and the answer to a validation challenge.
use vstd::prelude::*;
use ed25519_dalek::{Signer, SigningKey, Verifier};
use crate::config::QQBotConfig;
use crate::text::{concat2, eq_ignore_ascii_case, eq_ignore_ascii_case_spec};

verus! {

broadcast use vstd::string::group_string_axioms;

// ---------------------------------------------------------------- hex

/// A hexadecimal digit, upper or lower case.
pub open spec fn is_hex_digit(c: char) -> bool {
    let v = c as u32;
    (48 <= v <= 57) || (65 <= v <= 70) || (97 <= v <= 102)
}

/// The value of a hexadecimal digit.
pub open spec fn hex_value(c: char) -> int {
    let v = c as u32;
    if 48 <= v <= 57 {
        v - 48
    } else if 65 <= v <= 70 {
        v - 55
    } else {
        v - 87
    }
}

/// Text that decodes as hex: an even number of hexadecimal digits.
pub open spec fn hex_decodable(s: Seq<char>) -> bool {
    &&& s.len() % 2 == 0
    &&& forall|i: int| 0 <= i < s.len() ==> #[trigger] is_hex_digit(s[i])
}

/// The bytes that a hex text stands for, two digits per byte, high digit first.
pub open spec fn hex_decoded(s: Seq<char>) -> Seq<u8> {
    Seq::new(
        (s.len() / 2) as nat,
        |i: int| (hex_value(s[2 * i]) * 16 + hex_value(s[2 * i + 1])) as u8,
    )
}

/// The lower-case hexadecimal digit for a value below 16.
pub open spec fn hex_lower_digit(n: int) -> char {
    if n < 10 {
        ((48 + n) as u32) as char
    } else {
        ((87 + n) as u32) as char
    }
}

/// Lower-case hex text of bytes, two digits per byte, high digit first.
pub open spec fn hex_encoded(b: Seq<u8>) -> Seq<char> {
    Seq::new(
        b.len() * 2,
        |i: int|
            if i % 2 == 0 {
                hex_lower_digit(b[i / 2] as int / 16)
            } else {
                hex_lower_digit(b[i / 2] as int % 16)
            },
    )
}

/// The message of the error that `hex::decode` reports for a text it rejects.
pub uninterp spec fn hex_decode_error_message(s: Seq<char>) -> Seq<char>;

/// `hex::decode` on the bytes of `s`. Claimed from the crate's source: it succeeds exactly
/// when the text is an even number of ASCII hex digits (a non-ASCII character is rejected as
/// an invalid one), and then gives one byte per pair of digits. The error's text is only
/// named: which error is reported is not stated.
#[verifier::external_body]
fn hex_decode(s: &str) -> (res: Result<Vec<u8>, String>)
    ensures
        res is Ok <==> hex_decodable(s@),
        res matches Ok(v) ==> v@ == hex_decoded(s@),
        res matches Err(m) ==> m@ == hex_decode_error_message(s@),
{
    match hex::decode(s) {
        Ok(v) => Ok(v),
        Err(e) => Err(e.to_string()),
    }
}

/// `hex::encode`: lower-case hex text of the bytes, as the crate's source shows.
#[verifier::external_body]
fn hex_encode(bytes: &[u8]) -> (res: String)
    ensures
        res@ == hex_encoded(bytes@),
{
    hex::encode(bytes)
}

/// Decoding the hex text of some bytes gives those bytes back.
pub proof fn lemma_hex_round_trip(b: Seq<u8>)
    ensures
        hex_decodable(hex_encoded(b)),
        hex_decoded(hex_encoded(b)) == b,
{
    let e = hex_encoded(b);
    assert forall|i: int| 0 <= i < e.len() implies #[trigger] is_hex_digit(e[i]) by {
        let v = b[i / 2] as int;
        assert(0 <= v / 16 < 16);
        assert(0 <= v % 16 < 16);
    }
    assert(e.len() / 2 == b.len());
    assert forall|i: int| 0 <= i < b.len() implies #[trigger] hex_decoded(e)[i] == b[i] by {
        assert((2 * i) / 2 == i);
        assert((2 * i + 1) / 2 == i);
        assert((2 * i) % 2 == 0);
        assert((2 * i + 1) % 2 == 1);
        let v = b[i] as int;
        assert(hex_value(hex_lower_digit(v / 16)) == v / 16);
        assert(hex_value(hex_lower_digit(v % 16)) == v % 16);
    }
    assert(hex_decoded(e) =~= b);
}

// ---------------------------------------------------------------- ed25519

/// The Ed25519 signature of `message` under the signing key whose 32-byte secret is `seed`.
pub uninterp spec fn ed25519_signature(seed: Seq<u8>, message: Seq<u8>) -> Seq<u8>;

/// Whether Ed25519 verification under the key whose secret is `seed` accepts `signature`
/// for `message`.
pub uninterp spec fn ed25519_accepts(seed: Seq<u8>, message: Seq<u8>, signature: Seq<u8>) -> bool;

/// Signs with ed25519-dalek: `SigningKey::from_bytes(seed)` then `Signer::sign`, as bytes.
/// Claimed: the result is the (deterministic) signature named by `ed25519_signature`, and
/// verification under the same key accepts it for the same message.
#[verifier::external_body]
fn ed25519_sign(seed: &[u8; 32], message: &[u8]) -> (sig: [u8; 64])
    ensures
        sig@ == ed25519_signature(seed@, message@),
        ed25519_accepts(seed@, message@, sig@),
{
    SigningKey::from_bytes(seed).sign(message).to_bytes()
}

/// Verifies with ed25519-dalek: the verifying key of `SigningKey::from_bytes(seed)` and
/// `Verifier::verify` on the signature with these bytes. Claimed: the outcome is the one
/// named by `ed25519_accepts`.
#[verifier::external_body]
fn ed25519_verify(seed: &[u8; 32], message: &[u8], signature: &[u8; 64]) -> (ok: bool)
    ensures
        ok == ed25519_accepts(seed@, message@, signature@),
{
    let sig = ed25519_dalek::Signature::from_bytes(signature);
    SigningKey::from_bytes(seed).verifying_key().verify(message, &sig).is_ok()
}

/// `ed25519_dalek::Signature::from_slice`, as bytes. Claimed from the source: it succeeds
/// exactly on 64 bytes and keeps them; its error displays as "signature error".
#[verifier::external_body]
fn signature_from_slice(bytes: &[u8]) -> (res: Result<[u8; 64], String>)
    ensures
        res is Ok <==> bytes@.len() == 64,
        res matches Ok(a) ==> a@ == bytes@,
        res matches Err(m) ==> m@ == "signature error"@,
{
    match ed25519_dalek::Signature::from_slice(bytes) {
        Ok(sig) => Ok(sig.to_bytes()),
        Err(e) => Err(e.to_string()),
    }
}

// ---------------------------------------------------------------- key material

/// The UTF-8 bytes of a text.
pub open spec fn utf8(s: Seq<char>) -> Seq<u8> {
    vstd::utf8::encode_utf8(s)
}

/// The 32-byte key seed taken from a secret: its bytes repeated until 32 are filled.
pub open spec fn secret_seed(secret: Seq<char>) -> Seq<u8> {
    Seq::new(32, |i: int| utf8(secret)[i % (utf8(secret).len() as int)])
}

proof fn lemma_utf8_nonempty(s: Seq<char>)
    requires
        s.len() > 0,
    ensures
        utf8(s).len() > 0,
{
    reveal_with_fuel(vstd::utf8::encode_utf8, 1);
}

/// The key seed for a secret; an empty secret has none.
pub open spec fn is_seed_derivation(secret: Seq<char>, res: Result<[u8; 32], String>) -> bool {
    &&& secret.len() == 0 <==> res is Err
    &&& res matches Ok(seed) ==> seed@ == secret_seed(secret)
    &&& res matches Err(m) ==> m@ == "secret is empty"@
}

pub fn derive_secret_seed(secret: &str) -> (res: Result<[u8; 32], String>)
    ensures
        is_seed_derivation(secret@, res),
{
    if secret.is_empty() {
        return Err(String::from_str("secret is empty"));
    }
    let bytes = secret.as_bytes();
    proof {
        lemma_utf8_nonempty(secret@);
    }
    let len = bytes.len();
    let mut seed = [0u8; 32];
    for i in 0..32usize
        invariant
            len == bytes@.len(),
            len > 0,
            bytes@ == utf8(secret@),
            forall|j: int| 0 <= j < i ==> seed@[j] == bytes@[j % (len as int)],
    {
        seed[i] = bytes[i % len];
    }
    assert(seed@ =~= secret_seed(secret@));
    Ok(seed)
}

/// The message that a webhook signature covers: the timestamp's bytes, then the body.
pub fn build_signature_message(timestamp: &str, body: &[u8]) -> (message: Vec<u8>)
    ensures
        message@ == utf8(timestamp@) + body@,
{
    let ts = timestamp.as_bytes();
    let mut message: Vec<u8> = Vec::new();
    let n = ts.len();
    for i in 0..n
        invariant
            n == ts@.len(),
            message@ == ts@.take(i as int),
    {
        message.push(ts[i]);
        assert(ts@.take(i + 1) == ts@.take(i as int).push(ts@[i as int]));
    }
    assert(ts@.take(n as int) == ts@);
    let m = body.len();
    for i in 0..m
        invariant
            m == body@.len(),
            message@ == ts@ + body@.take(i as int),
    {
        message.push(body[i]);
        assert(body@.take(i + 1) == body@.take(i as int).push(body@[i as int]));
    }
    assert(body@.take(m as int) == body@);
    message
}

// ---------------------------------------------------------------- headers

/// One request header: its name, and its value when that is a string.
pub struct Header {
    pub name: String,
    pub value: Option<String>,
}

/// The text of an optional string.
pub open spec fn opt_text(o: Option<String>) -> Option<Seq<char>> {
    match o {
        Some(s) => Some(s@),
        None => None,
    }
}

/// The value of the first header whose name equals `name` up to ASCII case
/// (`None` when there is none, or when that header's value is not a string).
pub open spec fn header_lookup(headers: Seq<Header>, name: Seq<char>) -> Option<Seq<char>>
    decreases headers.len(),
{
    if headers.len() == 0 {
        None
    } else if eq_ignore_ascii_case_spec(headers[0].name@, name) {
        opt_text(headers[0].value)
    } else {
        header_lookup(headers.drop_first(), name)
    }
}

/// Looks a header up by name, ignoring ASCII case.
pub fn get_header(headers: &[Header], name: &str) -> (res: Option<String>)
    ensures
        opt_text(res) == header_lookup(headers@, name@),
{
    let n = headers.len();
    assert(headers@.skip(0) == headers@);
    for i in 0..n
        invariant
            n == headers@.len(),
            header_lookup(headers@, name@) == header_lookup(headers@.skip(i as int), name@),
    {
        assert(headers@.skip(i as int).drop_first() == headers@.skip(i + 1));
        if eq_ignore_ascii_case(headers[i].name.as_str(), name) {
            return match &headers[i].value {
                Some(v) => Some(v.clone()),
                None => None,
            };
        }
    }
    None
}

// ---------------------------------------------------------------- incoming requests

/// Name of the header that carries the hex signature.
pub open spec fn signature_header_name() -> Seq<char> {
    "x-signature-ed25519"@
}

/// Name of the header that carries the signed timestamp.
pub open spec fn timestamp_header_name() -> Seq<char> {
    "x-signature-timestamp"@
}

/// What checking an incoming request's signature gives: an error for a missing secret,
/// header, or malformed signature, else whether Ed25519 accepts the signature over the
/// timestamp and body under the key derived from the app secret.
pub open spec fn signature_check(secret: Seq<char>, headers: Seq<Header>, body: Seq<u8>) -> Result<
    bool,
    Seq<char>,
> {
    if secret.len() == 0 {
        Err("app_secret is empty"@)
    } else {
        match header_lookup(headers, signature_header_name()) {
            None => Err("missing x-signature-ed25519 header"@),
            Some(sig_hex) => match header_lookup(headers, timestamp_header_name()) {
                None => Err("missing x-signature-timestamp header"@),
                Some(ts) => if !hex_decodable(sig_hex) {
                    Err("invalid signature hex: "@ + hex_decode_error_message(sig_hex))
                } else if hex_decoded(sig_hex).len() != 64 {
                    Err("invalid signature bytes: signature error"@)
                } else {
                    Ok(
                        ed25519_accepts(
                            secret_seed(secret),
                            utf8(ts) + body,
                            hex_decoded(sig_hex),
                        ),
                    )
                },
            },
        }
    }
}

/// A result with a `String` error, seen as texts.
pub open spec fn result_text<T>(r: Result<T, String>) -> Result<T, Seq<char>> {
    match r {
        Ok(v) => Ok(v),
        Err(e) => Err(e@),
    }
}

/// Checks the Ed25519 signature of an incoming webhook request.
pub fn verify_incoming_signature(config: &QQBotConfig, headers: &[Header], body: &[u8]) -> (res:
    Result<bool, String>)
    ensures
        result_text(res) == signature_check(config.app_secret@, headers@, body@),
{
    if config.app_secret.as_str().is_empty() {
        return Err(String::from_str("app_secret is empty"));
    }
    let sig_hex = match get_header(headers, "x-signature-ed25519") {
        Some(v) => v,
        None => {
            return Err(String::from_str("missing x-signature-ed25519 header"));
        },
    };
    let timestamp = match get_header(headers, "x-signature-timestamp") {
        Some(v) => v,
        None => {
            return Err(String::from_str("missing x-signature-timestamp header"));
        },
    };
    let signature_bytes = match hex_decode(sig_hex.as_str()) {
        Ok(b) => b,
        Err(e) => {
            return Err(concat2("invalid signature hex: ", e.as_str()));
        },
    };
    let signature = match signature_from_slice(signature_bytes.as_slice()) {
        Ok(s) => s,
        Err(e) => {
            let msg = concat2("invalid signature bytes: ", e.as_str());
            proof {
                reveal_strlit("invalid signature bytes: ");
                reveal_strlit("signature error");
                reveal_strlit("invalid signature bytes: signature error");
            }
            assert(msg@ == "invalid signature bytes: signature error"@);
            return Err(msg);
        },
    };
    let seed = match derive_secret_seed(config.app_secret.as_str()) {
        Ok(s) => s,
        Err(e) => {
            return Err(e);
        },
    };
    let message = build_signature_message(timestamp.as_str(), body);
    Ok(ed25519_verify(&seed, message.as_slice(), &signature))
}

// ---------------------------------------------------------------- validation challenge

/// The challenge that the platform sends to validate a webhook.
pub struct ValidationPayload {
    pub plain_token: String,
    pub event_ts: String,
}

/// The answer to a validation challenge: the token, and the hex signature over it.
pub struct ValidationReply {
    pub plain_token: String,
    pub signature: String,
}

/// The hex signature that answers a challenge: Ed25519 under the secret's key over the
/// event timestamp followed by the plain token.
pub open spec fn challenge_signature(secret: Seq<char>, plain_token: Seq<char>, event_ts: Seq<char>) -> Seq<char> {
    hex_encoded(ed25519_signature(secret_seed(secret), utf8(event_ts) + utf8(plain_token)))
}

/// The message that answers a challenge is signed over: the event timestamp followed by
/// the plain token.
pub open spec fn challenge_message(plain_token: Seq<char>, event_ts: Seq<char>) -> Seq<u8> {
    utf8(event_ts) + utf8(plain_token)
}

/// What answering a validation challenge gives: an error without an app secret or for a
/// challenge that could not be read; otherwise the token with the lower-case hex of the
/// 64-byte Ed25519 signature over the challenge message under the secret's key, a signature
/// that verification under that key accepts.
pub open spec fn is_validation_answer(
    secret: Seq<char>,
    validation: Result<ValidationPayload, String>,
    res: Result<ValidationReply, String>,
) -> bool {
    if secret.len() == 0 {
        res matches Err(m) && m@ == "app_secret is required for webhook validation"@
    } else {
        match validation {
            Err(e) => res matches Err(m) && m@ == "invalid validation payload: "@ + e@,
            Ok(v) => res matches Ok(r) && {
                let seed = secret_seed(secret);
                let message = challenge_message(v.plain_token@, v.event_ts@);
                &&& r.plain_token == v.plain_token
                &&& r.signature@ == challenge_signature(secret, v.plain_token@, v.event_ts@)
                &&& r.signature@.len() == 128
                &&& ed25519_signature(seed, message).len() == 64
                &&& ed25519_accepts(seed, message, ed25519_signature(seed, message))
            },
        }
    }
}

/// Answers a validation challenge; `validation` is the challenge as read from the
/// callback, or the reason it could not be read.
pub fn handle_validation_request(
    config: &QQBotConfig,
    validation: Result<ValidationPayload, String>,
) -> (res: Result<ValidationReply, String>)
    ensures
        is_validation_answer(config.app_secret@, validation, res),
{
    if config.app_secret.as_str().is_empty() {
        return Err(String::from_str("app_secret is required for webhook validation"));
    }
    let validation = match validation {
        Ok(v) => v,
        Err(e) => {
            return Err(concat2("invalid validation payload: ", e.as_str()));
        },
    };
    let seed = match derive_secret_seed(config.app_secret.as_str()) {
        Ok(s) => s,
        Err(e) => {
            return Err(e);
        },
    };
    let message = build_signature_message(
        validation.event_ts.as_str(),
        validation.plain_token.as_str().as_bytes(),
    );
    let signature = ed25519_sign(&seed, message.as_slice());
    let signature_hex = hex_encode(&signature);
    assert(signature_hex@.len() == 128);
    Ok(ValidationReply { plain_token: validation.plain_token, signature: signature_hex })
}

/// What answering a validation challenge signs, checking an incoming request accepts: with
/// the answer's signature and the challenge's timestamp in the headers (names matched up to
/// ASCII case) and the plain token as the body, the signature check gives `Ok(true)`.
pub proof fn lemma_challenge_answer_passes_check(
    secret: Seq<char>,
    challenge: ValidationPayload,
    answer: ValidationReply,
    headers: Seq<Header>,
)
    requires
        is_validation_answer(secret, Ok(challenge), Ok(answer)),
        header_lookup(headers, signature_header_name()) == Some(answer.signature@),
        header_lookup(headers, timestamp_header_name()) == Some(challenge.event_ts@),
    ensures
        signature_check(secret, headers, utf8(challenge.plain_token@)) == Ok::<bool, Seq<char>>(true),
{
    let seed = secret_seed(secret);
    let message = challenge_message(challenge.plain_token@, challenge.event_ts@);
    lemma_hex_round_trip(ed25519_signature(seed, message));
}

/// An incoming request's signature covers its timestamp followed by its body: with a
/// well-formed 64-byte hex signature and a timestamp in the headers, the check's verdict is
/// whether Ed25519, under the key from the app secret, accepts the signature for the
/// timestamp's UTF-8 bytes followed by the body bytes.
pub proof fn lemma_signature_covers_timestamp_and_body(
    secret: Seq<char>,
    headers: Seq<Header>,
    body: Seq<u8>,
    sig_hex: Seq<char>,
    ts: Seq<char>,
)
    requires
        secret.len() > 0,
        header_lookup(headers, "x-signature-ed25519"@) == Some(sig_hex),
        header_lookup(headers, "x-signature-timestamp"@) == Some(ts),
        hex_decodable(sig_hex),
        hex_decoded(sig_hex).len() == 64,
    ensures
        signature_check(secret, headers, body) == Ok::<bool, Seq<char>>(
            ed25519_accepts(secret_seed(secret), vstd::utf8::encode_utf8(ts) + body, hex_decoded(sig_hex)),
        ),
{
}

/// A validation challenge is answered with the hex of the Ed25519 signature, under the
/// key from the app secret, of the event timestamp's UTF-8 bytes followed by the plain
/// token's; the answer carries the challenge's token.
pub proof fn lemma_challenge_answer_signs_timestamp_then_token(
    secret: Seq<char>,
    challenge: ValidationPayload,
    answer: ValidationReply,
)
    requires
        is_validation_answer(secret, Ok(challenge), Ok(answer)),
    ensures
        answer.plain_token == challenge.plain_token,
        answer.signature@ == hex_encoded(
            ed25519_signature(
                secret_seed(secret),
                vstd::utf8::encode_utf8(challenge.event_ts@) + vstd::utf8::encode_utf8(
                    challenge.plain_token@,
                ),
            ),
        ),
{
}

/// An empty secret has no key seed ("secret is empty"); the key seed of a non-empty secret
/// is 32 bytes: the secret's UTF-8 bytes, repeated.
pub proof fn lemma_seed_repeats_secret(secret: Seq<char>, res: Result<[u8; 32], String>)
    requires
        is_seed_derivation(secret, res),
    ensures
        secret.len() == 0 ==> (res matches Err(m) && m@ == "secret is empty"@),
        secret.len() > 0 ==> (res matches Ok(seed) && seed@ == secret_seed(secret)),
        secret_seed(secret).len() == 32,
        secret.len() > 0 ==> vstd::utf8::encode_utf8(secret).len() > 0,
        secret.len() > 0 ==> forall|i: int|
            0 <= i < 32 ==> #[trigger] secret_seed(secret)[i] == vstd::utf8::encode_utf8(secret)[i
                % vstd::utf8::encode_utf8(secret).len() as int],
{
    if secret.len() > 0 {
        lemma_utf8_nonempty(secret);
    }
}

/// Header names are compared up to ASCII case, and the first header with a matching name
/// decides: its value when that is a string, nothing otherwise.
pub proof fn lemma_first_matching_header(first: Header, rest: Seq<Header>, name: Seq<char>)
    ensures
        header_lookup(seq![first] + rest, name) == if eq_ignore_ascii_case_spec(first.name@, name) {
            match first.value {
                Some(v) => Some(v@),
                None => None::<Seq<char>>,
            }
        } else {
            header_lookup(rest, name)
        },
{
    assert((seq![first] + rest).drop_first() == rest);
}

/// A request is refused before any signature is checked when there is no app secret, no
/// signature header, or no timestamp header, and a signature that is not hex or not 64
/// bytes long is refused as malformed.
pub proof fn lemma_signature_check_errors(secret: Seq<char>, headers: Seq<Header>, body: Seq<u8>)
    ensures
        secret.len() == 0 ==> signature_check(secret, headers, body) == Err::<bool, Seq<char>>(
            "app_secret is empty"@,
        ),
        secret.len() > 0 && header_lookup(headers, "x-signature-ed25519"@) is None ==> signature_check(
            secret,
            headers,
            body,
        ) == Err::<bool, Seq<char>>("missing x-signature-ed25519 header"@),
        secret.len() > 0 && header_lookup(headers, "x-signature-ed25519"@) is Some && header_lookup(
            headers,
            "x-signature-timestamp"@,
        ) is None ==> signature_check(secret, headers, body) == Err::<bool, Seq<char>>(
            "missing x-signature-timestamp header"@,
        ),
        secret.len() > 0 && header_lookup(headers, "x-signature-timestamp"@) is Some && (header_lookup(
            headers,
            "x-signature-ed25519"@,
        ) matches Some(h) && !hex_decodable(h)) ==> signature_check(secret, headers, body)
            == Err::<bool, Seq<char>>(
            "invalid signature hex: "@ + hex_decode_error_message(header_lookup(headers, "x-signature-ed25519"@)->0),
        ),
        secret.len() > 0 && header_lookup(headers, "x-signature-timestamp"@) is Some && (header_lookup(
            headers,
            "x-signature-ed25519"@,
        ) matches Some(h) && hex_decodable(h) && h.len() != 128) ==> signature_check(secret, headers, body)
            == Err::<bool, Seq<char>>("invalid signature bytes: signature error"@),
{
}

} // verus!
