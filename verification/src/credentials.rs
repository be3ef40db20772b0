//! The credentials with which this service presents itself to the identity
//! provider.

use base64::Engine;
use vstd::prelude::*;
use vstd::string::*;

verus! {

/// The bytes that percent-encoding leaves as they are: ASCII letters and
/// digits, `-`, `.`, `_` and `~`.
pub open spec fn is_unreserved(byte: u8) -> bool {
    ||| 0x30 <= byte <= 0x39
    ||| 0x41 <= byte <= 0x5A
    ||| 0x61 <= byte <= 0x7A
    ||| byte == 0x2D
    ||| byte == 0x2E
    ||| byte == 0x5F
    ||| byte == 0x7E
}

/// The upper-case hexadecimal digit of a value below 16.
pub open spec fn hex_digit(value: u8) -> char {
    if value < 10 {
        (0x30 + value) as u8 as char
    } else {
        (0x41 + value - 10) as u8 as char
    }
}

/// One byte, percent-encoded: itself where it is unreserved, else `%` and its
/// two hexadecimal digits.
pub open spec fn percent_encoded_byte(byte: u8) -> Seq<char> {
    if is_unreserved(byte) {
        seq![byte as char]
    } else {
        seq!['%', hex_digit(byte / 16), hex_digit(byte % 16)]
    }
}

/// A byte string, percent-encoded byte by byte.
pub open spec fn percent_encoded(bytes: Seq<u8>) -> Seq<char> {
    bytes.map_values(|byte: u8| percent_encoded_byte(byte)).flatten()
}

/// Bytes that are all unreserved are their own percent-encoding.
pub proof fn lemma_unreserved_bytes_are_kept(bytes: Seq<u8>)
    requires
        forall|i: int| 0 <= i < bytes.len() ==> is_unreserved(#[trigger] bytes[i]),
    ensures
        percent_encoded(bytes) == bytes.map_values(|byte: u8| byte as char),
    decreases bytes.len(),
{
    let parts = bytes.map_values(|byte: u8| percent_encoded_byte(byte));
    if bytes.len() == 0 {
        assert(parts.flatten() =~= bytes.map_values(|byte: u8| byte as char));
    } else {
        let tail = bytes.drop_first();
        lemma_unreserved_bytes_are_kept(tail);
        assert(parts.drop_first() =~= tail.map_values(|byte: u8| percent_encoded_byte(byte)));
        assert(parts.first() == seq![bytes[0] as char]);
        assert(parts.flatten() =~= bytes.map_values(|byte: u8| byte as char));
    }
}

/// A byte that is not unreserved becomes `%` and two hexadecimal digits.
pub proof fn lemma_reserved_byte_is_escaped(byte: u8)
    requires
        !is_unreserved(byte),
    ensures
        percent_encoded(seq![byte]) == seq!['%', hex_digit(byte / 16), hex_digit(byte % 16)],
{
    let parts = seq![byte].map_values(|byte: u8| percent_encoded_byte(byte));
    assert(parts.drop_first().flatten() =~= Seq::<char>::empty());
    assert(parts.flatten() =~= parts.first() + parts.drop_first().flatten());
}

/// The Base64 text of a byte string, in the standard alphabet and padded
/// with `=`, as `base64`'s `STANDARD` engine writes it.
pub uninterp spec fn base64_standard(bytes: Seq<u8>) -> Seq<char>;

/// The token with which the service authenticates: the Base64 text of the
/// percent-encoded client id, a colon, and the percent-encoded client secret.
pub open spec fn server_token(client_id: Seq<char>, client_secret: Seq<char>) -> Seq<char> {
    base64_standard(
        vstd::utf8::encode_utf8(
            percent_encoded(vstd::utf8::encode_utf8(client_id)) + ":"@ + percent_encoded(
                vstd::utf8::encode_utf8(client_secret),
            ),
        ),
    )
}

/// `urlencoding::encode`: percent-encodes every byte of the UTF-8 form of
/// `data` except the unreserved ones.
#[verifier::external_body]
fn url_encode(data: &str) -> (encoded: String)
    ensures
        encoded@ == percent_encoded(data.spec_bytes()),
{
    urlencoding::encode(data).into_owned()
}

/// `base64::Engine::encode` on the `STANDARD` engine: the Base64 text of the
/// UTF-8 form of `text`. The call fails only on inputs of more than three
/// quarters of `usize::MAX` bytes, which no `str` reaches.
#[verifier::external_body]
fn base64_encode(text: &str) -> (encoded: String)
    ensures
        encoded@ == base64_standard(text.spec_bytes()),
{
    base64::engine::general_purpose::STANDARD.encode(text)
}

/// Computes the token that goes into the `Authorization: Basic` header of
/// every introspection call.
pub fn auth_server_token(auth_client_id: &str, auth_client_secret: &str) -> (token: String)
    ensures
        token@ == server_token(auth_client_id@, auth_client_secret@),
{
    let auth_client_id_encoded = url_encode(auth_client_id);
    let auth_client_secret_encoded = url_encode(auth_client_secret);
    let pair = auth_client_id_encoded.concat(":").concat(auth_client_secret_encoded.as_str());
    base64_encode(pair.as_str())
}

} // verus!
