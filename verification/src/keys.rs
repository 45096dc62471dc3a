//! Keys as text: hexadecimal cipher keys and NEAR account keys.

use crate::text::digit;
use vstd::prelude::*;

verus! {

/// The lower-case character of a hexadecimal digit.
pub open spec fn hex_digit(d: nat) -> char {
    if d < 10 { digit(d) }
    else if d == 10 { 'a' }
    else if d == 11 { 'b' }
    else if d == 12 { 'c' }
    else if d == 13 { 'd' }
    else if d == 14 { 'e' }
    else { 'f' }
}

/// Bytes in hexadecimal, two lower-case digits for each byte, the high half first.
pub open spec fn hex_text(bytes: Seq<u8>) -> Seq<char> {
    Seq::new(
        2 * bytes.len(),
        |i: int|
            if i % 2 == 0 {
                hex_digit((bytes[i / 2] / 16) as nat)
            } else {
                hex_digit((bytes[i / 2] % 16) as nat)
            },
    )
}

/// Encodes bytes with `hex::encode`, which writes each byte as two lower-case
/// hexadecimal digits, the high half first.
#[verifier::external_body]
pub(crate) fn encode_hex(bytes: &[u8]) -> (r: String)
    ensures
        r@ == hex_text(bytes@),
{
    hex::encode(bytes)
}

/// Hexadecimal text loses nothing: two byte strings with the same text are equal.
pub proof fn law_hex_text_is_injective(a: Seq<u8>, b: Seq<u8>)
    requires
        hex_text(a) == hex_text(b),
    ensures
        a == b,
{
    assert(hex_text(a).len() == 2 * a.len());
    assert(hex_text(b).len() == 2 * b.len());
    assert forall|i: int| 0 <= i < a.len() implies a[i] == b[i] by {
        assert(hex_text(a)[2 * i] == hex_digit((a[i] / 16) as nat));
        assert(hex_text(b)[2 * i] == hex_digit((b[i] / 16) as nat));
        assert(hex_text(a)[2 * i + 1] == hex_digit((a[i] % 16) as nat));
        assert(hex_text(b)[2 * i + 1] == hex_digit((b[i] % 16) as nat));
    }
    assert(a =~= b);
}

/// Why a text is not a key.
#[derive(Debug, PartialEq, Eq)]
pub enum KeyError {
    /// The part before the colon names no known curve.
    UnknownKeyType { unknown_key_type: String },
    /// The key data decodes to the wrong number of bytes.
    InvalidLength { expected_length: usize, received_length: usize },
    /// The key data is not a key of its curve.
    InvalidData { error_message: String },
}

/// A [`KeyError`] with its texts as sequences.
pub enum KeyErrorView {
    UnknownKeyType { unknown_key_type: Seq<char> },
    InvalidLength { expected_length: usize, received_length: usize },
    InvalidData { error_message: Seq<char> },
}

impl View for KeyError {
    type V = KeyErrorView;

    open spec fn view(&self) -> KeyErrorView {
        match *self {
            KeyError::UnknownKeyType { unknown_key_type } => KeyErrorView::UnknownKeyType {
                unknown_key_type: unknown_key_type@,
            },
            KeyError::InvalidLength { expected_length, received_length } =>
                KeyErrorView::InvalidLength { expected_length, received_length },
            KeyError::InvalidData { error_message } => KeyErrorView::InvalidData {
                error_message: error_message@,
            },
        }
    }
}

/// What `near_crypto` reads a text as: the text it prints for the secret key that it
/// parsed, or the reason why the text is no secret key.
pub uninterp spec fn secret_key(text: Seq<char>) -> Result<Seq<char>, KeyErrorView>;

/// The text of the Ed25519 secret key that `near_crypto` derives from a seed.
pub uninterp spec fn ed25519_key_from_seed(seed: Seq<char>) -> Seq<char>;

/// The text of the public key that belongs to the secret key with the given text.
pub uninterp spec fn public_key(secret: Seq<char>) -> Seq<char>;

/// What `near_workspaces` reads a text as: the text it prints for the public key that it
/// parsed, or nothing if the text is no public key.
pub uninterp spec fn account_public_key(text: Seq<char>) -> Option<Seq<char>>;

/// Parses with `near_crypto::SecretKey`'s `FromStr` and prints the key again. The result,
/// the error included, is a function of the text.
#[verifier::external_body]
pub(crate) fn parse_secret_key(text: &str) -> (r: Result<String, KeyError>)
    ensures
        match r {
            Ok(key) => secret_key(text@) == Ok::<Seq<char>, KeyErrorView>(key@),
            Err(error) => secret_key(text@) == Err::<Seq<char>, KeyErrorView>(error@),
        },
{
    match text.parse::<near_crypto::SecretKey>() {
        Ok(key) => Ok(key.to_string()),
        Err(near_crypto::ParseKeyError::UnknownKeyType { unknown_key_type }) => {
            Err(KeyError::UnknownKeyType { unknown_key_type })
        },
        Err(near_crypto::ParseKeyError::InvalidLength { expected_length, received_length }) => {
            Err(KeyError::InvalidLength { expected_length, received_length })
        },
        Err(near_crypto::ParseKeyError::InvalidData { error_message }) => {
            Err(KeyError::InvalidData { error_message })
        },
    }
}

/// Derives a key with `near_crypto::SecretKey::from_seed` for the curve Ed25519 and
/// prints it. The key is a function of the seed, and what is printed parses to the same
/// key again.
#[verifier::external_body]
pub(crate) fn derive_ed25519_key(seed: &str) -> (r: String)
    ensures
        r@ == ed25519_key_from_seed(seed@),
        secret_key(r@) == Ok::<Seq<char>, KeyErrorView>(r@),
{
    near_crypto::SecretKey::from_seed(near_crypto::KeyType::ED25519, seed).to_string()
}

/// Prints what `near_crypto::SecretKey::public_key` gives for a secret key; it is a
/// function of the key. What is printed is read by `near_workspaces`, whose public key
/// parses and prints as the one of `near_crypto` does, as a key with the same text.
#[verifier::external_body]
pub(crate) fn derive_public_key(secret: &str) -> (r: String)
    requires
        secret_key(secret@) is Ok,
    ensures
        r@ == public_key(secret@),
        account_public_key(r@) == Some(r@),
{
    secret.parse::<near_crypto::SecretKey>().unwrap().public_key().to_string()
}

/// Parses with the `FromStr` of `near_workspaces`'s public key and prints the key again.
/// The result is a function of the text.
#[verifier::external_body]
pub(crate) fn parse_account_public_key(text: &str) -> (r: Option<String>)
    ensures
        match r {
            Some(key) => account_public_key(text@) == Some(key@),
            None => account_public_key(text@) is None,
        },
{
    text.parse::<near_workspaces::types::PublicKey>().ok().map(|key| key.to_string())
}

/// Prints what `public_key` of `near_workspaces`'s secret key gives. That type wraps the
/// secret key of `near_crypto`, accepts the same texts, and hands out the same public key.
#[verifier::external_body]
pub(crate) fn derive_account_public_key(secret: &str) -> (r: String)
    requires
        secret_key(secret@) is Ok,
    ensures
        r@ == public_key(secret@),
{
    secret.parse::<near_workspaces::types::SecretKey>().unwrap().public_key().to_string()
}

/// The value of a lower-case hexadecimal digit.
pub open spec fn hex_value(c: char) -> int {
    if '0' <= c <= '9' {
        c as int - '0' as int
    } else {
        c as int - 'a' as int + 10
    }
}

/// Every byte reads back from its two characters, and there are no others.
pub proof fn law_hex_text_reads_back(bytes: Seq<u8>)
    ensures
        hex_text(bytes).len() == 2 * bytes.len(),
        forall|i: int|
            0 <= i < bytes.len() ==> #[trigger] bytes[i] == 16 * hex_value(hex_text(bytes)[2 * i])
                + hex_value(hex_text(bytes)[2 * i + 1]),
        forall|i: int|
            0 <= i < 2 * bytes.len() ==> {
                let c = #[trigger] hex_text(bytes)[i];
                '0' <= c <= '9' || 'a' <= c <= 'f'
            },
{
    assert forall|i: int| 0 <= i < bytes.len() implies #[trigger] bytes[i] == 16 * hex_value(
        hex_text(bytes)[2 * i],
    ) + hex_value(hex_text(bytes)[2 * i + 1]) by {
        assert(hex_text(bytes)[2 * i] == hex_digit((bytes[i] / 16) as nat));
        assert(hex_text(bytes)[2 * i + 1] == hex_digit((bytes[i] % 16) as nat));
        assert(bytes[i] == 16 * (bytes[i] / 16) + bytes[i] % 16);
    }
}

/// A key error shows all that it holds: two errors that look the same are of the same kind
/// and hold the same texts and lengths.
pub proof fn law_key_errors_are_told_apart(a: KeyError, b: KeyError)
    requires
        a@ == b@,
    ensures
        match (a, b) {
            (
                KeyError::UnknownKeyType { unknown_key_type: x },
                KeyError::UnknownKeyType { unknown_key_type: y },
            ) => x@ == y@,
            (
                KeyError::InvalidLength { expected_length: e, received_length: x },
                KeyError::InvalidLength { expected_length: f, received_length: y },
            ) => e == f && x == y,
            (
                KeyError::InvalidData { error_message: x },
                KeyError::InvalidData { error_message: y },
            ) => x@ == y@,
            _ => false,
        },
{
}

} // verus!
