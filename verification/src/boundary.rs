//! Calls into other crates and into parts of the standard library that the
//! verifier has no specification for. The contracts in this file are taken
//! on trust from the documentation and the source of what is called.

use vstd::prelude::*;
use crate::auth::ClaimValue;

verus! {

/// The error type of the `bcrypt` crate.
#[verifier::external_type_specification]
#[verifier::external_body]
pub struct ExBcryptError(bcrypt::BcryptError);

/// What `bcrypt::verify` returns for a password and a stored hash: whether
/// the password matches, or nothing where the hash cannot be read.
pub uninterp spec fn bcrypt_verdict(password: Seq<char>, hash: Seq<char>) -> Option<bool>;

/// `std::time::SystemTime::now`, as whole seconds since the Unix epoch (0
/// for a clock that stands before it). Nothing is claimed of the value.
#[verifier::external_body]
pub(crate) fn unix_time_now() -> (secs: u64) {
    std::time::SystemTime::now().duration_since(std::time::UNIX_EPOCH).map_or(0, |d| d.as_secs())
}

/// `bcrypt::hash`: a salted hash of the password at the given cost. The salt
/// is random, so the hash itself is not said. By the source `bcrypt::verify`
/// splits the hash into the cost and the salt that `hash` wrote, hashes the
/// password again with them and compares, so a hash that comes back for a
/// password verifies for that password.
#[verifier::external_body]
pub(crate) fn bcrypt_hash(password: &str, cost: u32) -> (r: Result<String, bcrypt::BcryptError>)
    ensures
        match r {
            Ok(hash) => bcrypt_verdict(password@, hash@) == Some(true),
            Err(_) => true,
        },
{
    bcrypt::hash(password, cost)
}

/// `bcrypt::verify`: the verdict is a function of the password and the hash.
#[verifier::external_body]
pub(crate) fn bcrypt_verify(password: &str, hash: &str) -> (r: Result<bool, bcrypt::BcryptError>)
    ensures
        match r {
            Ok(b) => bcrypt_verdict(password@, hash@) == Some(b),
            Err(_) => bcrypt_verdict(password@, hash@) is None,
        },
{
    bcrypt::verify(password, hash)
}

/// `rand::Rng::gen_range` on the thread's generator, for the range from 0 up
/// to `n`, without `n`. The documentation promises a value in the range; it
/// panics on an empty range, which `requires` leaves out.
#[verifier::external_body]
pub(crate) fn random_below(n: usize) -> (r: usize)
    requires
        n > 0,
    ensures
        r < n,
{
    rand::Rng::gen_range(&mut rand::thread_rng(), 0..n)
}

/// The length of a UUID in its hyphenated form.
pub const UUID_TEXT_LEN: usize = 36;

/// `uuid::Uuid::new_v4`, in the hyphenated form that its `Display` writes:
/// 32 digits and 4 hyphens. The value is random, so no more is claimed of
/// it.
#[verifier::external_body]
pub(crate) fn new_uuid_v4() -> (s: String)
    ensures
        s@.len() == UUID_TEXT_LEN,
{
    uuid::Uuid::new_v4().to_string()
}

/// The error type of `base64::decode`.
#[verifier::external_type_specification]
#[verifier::external_body]
pub struct ExBase64DecodeError(base64::DecodeError);

/// What `base64::decode` reads from a text in the standard alphabet with
/// padding: the bytes, or nothing where the text is no such encoding.
pub uninterp spec fn base64_decoded(text: Seq<char>) -> Option<Seq<u8>>;

/// What `base64::encode` writes for the bytes, in the standard alphabet with
/// padding.
pub uninterp spec fn base64_encoded(bytes: Seq<u8>) -> Seq<char>;

/// `base64::decode`: the result is a function of the text.
#[verifier::external_body]
pub(crate) fn base64_decode(text: &str) -> (r: Result<Vec<u8>, base64::DecodeError>)
    ensures
        match r {
            Ok(bytes) => base64_decoded(text@) == Some(bytes@),
            Err(_) => base64_decoded(text@) is None,
        },
{
    base64::decode(text)
}

/// `base64::encode`: the result is a function of the bytes.
#[verifier::external_body]
pub(crate) fn base64_encode(bytes: &[u8]) -> (text: String)
    ensures
        text@ == base64_encoded(bytes@),
{
    base64::encode(bytes)
}

/// What `str::to_lowercase` makes of a text.
pub uninterp spec fn lowercase_of(text: Seq<char>) -> Seq<char>;

/// `str::to_lowercase`: the result is a function of the text.
#[verifier::external_body]
pub(crate) fn to_lowercase(text: &str) -> (lower: String)
    ensures
        lower@ == lowercase_of(text@),
{
    text.to_lowercase()
}

/// Whether the network that `cidr` names in CIDR notation holds the address
/// that `ip` names: what `ipnetwork::IpNetwork::contains` returns once both
/// texts were parsed, and false where either is not parsed.
pub uninterp spec fn cidr_contains(cidr: Seq<char>, ip: Seq<char>) -> bool;

/// `ipnetwork::IpNetwork::contains`, on a network and an address that are
/// parsed from their texts.
#[verifier::external_body]
pub(crate) fn ip_in_cidr(ip: &str, cidr: &str) -> (r: bool)
    ensures
        r == cidr_contains(cidr@, ip@),
{
    match (cidr.parse::<ipnetwork::IpNetwork>(), ip.parse()) {
        (Ok(network), Ok(address)) => network.contains(address),
        _ => false,
    }
}

/// The day of the week of `chrono::Utc::now`, counted from Sunday as 0.
#[verifier::external_body]
pub(crate) fn utc_weekday_now() -> (day: u8)
    ensures
        day < 7,
{
    chrono::Datelike::weekday(&chrono::Utc::now()).num_days_from_sunday() as u8
}

/// The hour and the minute of `chrono::Local::now`.
#[verifier::external_body]
pub(crate) fn local_hour_minute_now() -> (t: (u8, u8))
    ensures
        t.0 < 24,
        t.1 < 60,
{
    let now = chrono::Local::now();
    (chrono::Timelike::hour(&now) as u8, chrono::Timelike::minute(&now) as u8)
}

/// The SHA-512 digest that `sodiumoxide::crypto::hash::hash` computes.
pub uninterp spec fn sha512_of(data: Seq<u8>) -> Seq<u8>;

/// `sodiumoxide::crypto::hash::hash`: the digest is a function of the data.
#[verifier::external_body]
pub(crate) fn sha512(data: &[u8]) -> (digest: Vec<u8>)
    ensures
        digest@ == sha512_of(data@),
{
    sodiumoxide::crypto::hash::hash(data).0.to_vec()
}

/// The one-time code that `totp_rs::TOTP::generate` computes at `time`
/// (seconds since the Unix epoch) for a generator made by `TOTP::new` with
/// SHA-1 and the given number of digits, skew and step; nothing where
/// `TOTP::new` refuses the digits or the secret.
pub uninterp spec fn totp_code(secret: Seq<u8>, digits: usize, skew: u8, step: u64, time: u64) -> Option<
    Seq<char>,
>;

/// `totp_rs::TOTP::new` and `TOTP::generate`. By its source `new` refuses
/// exactly a number of digits that is not 6, 7 or 8 and a secret of fewer
/// than 16 bytes. `generate` divides the time by the step, so a step of 0
/// is left out.
#[verifier::external_body]
pub(crate) fn totp_generate(secret: &[u8], digits: usize, skew: u8, step: u64, time: u64) -> (code:
    Option<String>)
    requires
        step > 0,
    ensures
        match code {
            Some(c) => totp_code(secret@, digits, skew, step, time) == Some(c@),
            None => totp_code(secret@, digits, skew, step, time) is None,
        },
        code is None <==> (secret@.len() < 16 || digits < 6 || digits > 8),
{
    let algorithm = totp_rs::Algorithm::SHA1;
    let totp = totp_rs::TOTP::new(algorithm, digits, skew, step, secret.to_vec()).ok()?;
    Some(totp.generate(time))
}

/// The PNG image of the QR code that `qrcode::QrCode::new` makes of a text
/// and `image` writes out, or nothing where the text does not fit a code.
pub uninterp spec fn qr_png_of(text: Seq<char>) -> Option<Seq<u8>>;

/// `qrcode::QrCode::new`, rendered in grey and written as PNG by
/// `image::ImageBuffer::write_to`.
#[verifier::external_body]
pub(crate) fn qr_png(text: &str) -> (png: Option<Vec<u8>>)
    ensures
        match png {
            Some(p) => qr_png_of(text@) == Some(p@),
            None => qr_png_of(text@) is None,
        },
{
    let code = qrcode::QrCode::new(text).ok()?;
    let image = code.render::<image::Luma<u8>>().build();
    let mut buffer = Vec::new();
    image.write_to(&mut std::io::Cursor::new(&mut buffer), image::ImageOutputFormat::Png).ok()?;
    Some(buffer)
}

/// `sodiumoxide::crypto::box_::gen_keypair`: a new random public key and
/// secret key, each of 32 bytes.
#[verifier::external_body]
pub(crate) fn box_keypair() -> (pair: (Vec<u8>, Vec<u8>))
    ensures
        pair.0@.len() == 32,
        pair.1@.len() == 32,
{
    let (public_key, secret_key) = sodiumoxide::crypto::box_::gen_keypair();
    (public_key.0.to_vec(), secret_key.0.to_vec())
}

/// The key that `sodiumoxide::crypto::box_::precompute` derives from the
/// other side's public key and one's own secret key; nothing where one of
/// them is no key.
pub uninterp spec fn box_shared_key(public_key: Seq<u8>, secret_key: Seq<u8>) -> Option<Seq<u8>>;

/// `sodiumoxide::crypto::box_::precompute`, on keys read by `from_slice`,
/// which takes exactly 32 bytes for either key.
#[verifier::external_body]
pub(crate) fn box_precompute(public_key: &[u8], secret_key: &[u8]) -> (shared: Option<Vec<u8>>)
    ensures
        match shared {
            Some(k) => box_shared_key(public_key@, secret_key@) == Some(k@),
            None => box_shared_key(public_key@, secret_key@) is None,
        },
        shared is Some <==> (public_key@.len() == 32 && secret_key@.len() == 32),
{
    let public_key = sodiumoxide::crypto::box_::PublicKey::from_slice(public_key)?;
    let secret_key = sodiumoxide::crypto::box_::SecretKey::from_slice(secret_key)?;
    Some(sodiumoxide::crypto::box_::precompute(&public_key, &secret_key).0.to_vec())
}

/// `sodiumoxide::crypto::secretbox::gen_nonce`: a new random nonce of 24
/// bytes.
#[verifier::external_body]
pub(crate) fn secretbox_nonce() -> (nonce: Vec<u8>)
    ensures
        nonce@.len() == 24,
{
    sodiumoxide::crypto::secretbox::gen_nonce().0.to_vec()
}

/// What `sodiumoxide::crypto::secretbox::seal` makes of a text under a
/// nonce and a key; nothing where the nonce or the key is none.
pub uninterp spec fn secretbox_sealed(text: Seq<u8>, nonce: Seq<u8>, key: Seq<u8>) -> Option<
    Seq<u8>,
>;

/// `sodiumoxide::crypto::secretbox::seal`, on a nonce and a key read by
/// `from_slice`, which takes exactly 24 bytes for a nonce and 32 for a key.
#[verifier::external_body]
pub(crate) fn secretbox_seal(text: &[u8], nonce: &[u8], key: &[u8]) -> (sealed: Option<Vec<u8>>)
    ensures
        match sealed {
            Some(c) => secretbox_sealed(text@, nonce@, key@) == Some(c@),
            None => secretbox_sealed(text@, nonce@, key@) is None,
        },
        sealed is Some <==> (nonce@.len() == 24 && key@.len() == 32),
{
    let nonce = sodiumoxide::crypto::secretbox::Nonce::from_slice(nonce)?;
    let key = sodiumoxide::crypto::secretbox::Key::from_slice(key)?;
    Some(sodiumoxide::crypto::secretbox::seal(text, &nonce, &key))
}

/// What `sodiumoxide::crypto::secretbox::open` reads from a sealed text
/// under a nonce and a key; nothing where the nonce or the key is none, or
/// the sealed text does not verify.
pub uninterp spec fn secretbox_opened(sealed: Seq<u8>, nonce: Seq<u8>, key: Seq<u8>) -> Option<
    Seq<u8>,
>;

/// `sodiumoxide::crypto::secretbox::open`, on a nonce and a key read by
/// `from_slice`.
#[verifier::external_body]
pub(crate) fn secretbox_open(sealed: &[u8], nonce: &[u8], key: &[u8]) -> (text: Option<Vec<u8>>)
    ensures
        match text {
            Some(t) => secretbox_opened(sealed@, nonce@, key@) == Some(t@),
            None => secretbox_opened(sealed@, nonce@, key@) is None,
        },
{
    let nonce = sodiumoxide::crypto::secretbox::Nonce::from_slice(nonce)?;
    let key = sodiumoxide::crypto::secretbox::Key::from_slice(key)?;
    sodiumoxide::crypto::secretbox::open(sealed, &nonce, &key).ok()
}

/// What `sodiumoxide::crypto::sign::sign` makes of a message under a
/// secret key: the signed message; nothing where the key is no signing key.
pub uninterp spec fn ed25519_signed(message: Seq<u8>, secret_key: Seq<u8>) -> Option<Seq<u8>>;

/// `sodiumoxide::crypto::sign::sign`, on a secret key read by `from_slice`,
/// which takes exactly 64 bytes.
#[verifier::external_body]
pub(crate) fn ed25519_sign(message: &[u8], secret_key: &[u8]) -> (signed: Option<Vec<u8>>)
    ensures
        match signed {
            Some(s) => ed25519_signed(message@, secret_key@) == Some(s@),
            None => ed25519_signed(message@, secret_key@) is None,
        },
        signed is Some <==> secret_key@.len() == 64,
{
    let secret_key = sodiumoxide::crypto::sign::SecretKey::from_slice(secret_key)?;
    Some(sodiumoxide::crypto::sign::sign(message, &secret_key))
}

/// What `sodiumoxide::crypto::sign::verify` reads from a signed message
/// under a public key: the message; nothing where the key is none or the
/// signature does not verify.
pub uninterp spec fn ed25519_verified(signed: Seq<u8>, public_key: Seq<u8>) -> Option<Seq<u8>>;

/// `sodiumoxide::crypto::sign::verify`, on a public key read by
/// `from_slice`.
#[verifier::external_body]
pub(crate) fn ed25519_verify(signed: &[u8], public_key: &[u8]) -> (message: Option<Vec<u8>>)
    ensures
        match message {
            Some(m) => ed25519_verified(signed@, public_key@) == Some(m@),
            None => ed25519_verified(signed@, public_key@) is None,
        },
{
    let public_key = sodiumoxide::crypto::sign::PublicKey::from_slice(public_key)?;
    sodiumoxide::crypto::sign::verify(signed, &public_key).ok()
}

/// The CRC-32 checksum that `crc32fast::hash` computes.
pub uninterp spec fn crc32_of(data: Seq<u8>) -> u32;

/// `crc32fast::hash`: the checksum is a function of the data.
#[verifier::external_body]
pub(crate) fn crc32(data: &[u8]) -> (sum: u32)
    ensures
        sum == crc32_of(data@),
{
    crc32fast::hash(data)
}

/// The SHA-256 digest that `sha2::Sha256` computes.
pub uninterp spec fn sha256_of(data: Seq<u8>) -> Seq<u8>;

/// `sha2::Digest::digest` of `sha2::Sha256`: the digest is a function of
/// the data.
#[verifier::external_body]
pub(crate) fn sha256(data: &[u8]) -> (digest: Vec<u8>)
    ensures
        digest@ == sha256_of(data@),
{
    <sha2::Sha256 as sha2::Digest>::digest(data).to_vec()
}

/// What `flate2::write::GzEncoder` makes of the data at the default level
/// of compression; nothing where it reports an error.
pub uninterp spec fn gzip_of(data: Seq<u8>) -> Option<Seq<u8>>;

/// `flate2::write::GzEncoder`, written to in one piece and finished.
#[verifier::external_body]
pub(crate) fn gzip(data: &[u8]) -> (packed: Option<Vec<u8>>)
    ensures
        match packed {
            Some(p) => gzip_of(data@) == Some(p@),
            None => gzip_of(data@) is None,
        },
{
    let mut encoder = flate2::write::GzEncoder::new(Vec::new(), flate2::Compression::default());
    std::io::Write::write_all(&mut encoder, data).ok()?;
    encoder.finish().ok()
}

/// What `flate2::read::GzDecoder` reads from packed data; nothing where
/// the data is no gzip stream.
pub uninterp spec fn gunzip_of(packed: Seq<u8>) -> Option<Seq<u8>>;

/// `flate2::read::GzDecoder`, read to its end.
#[verifier::external_body]
pub(crate) fn gunzip(packed: &[u8]) -> (data: Option<Vec<u8>>)
    ensures
        match data {
            Some(d) => gunzip_of(packed@) == Some(d@),
            None => gunzip_of(packed@) is None,
        },
{
    let mut decoder = flate2::read::GzDecoder::new(packed);
    let mut data = Vec::new();
    std::io::Read::read_to_end(&mut decoder, &mut data).ok()?;
    Some(data)
}

/// `std::path::Path::extension`, as text. What counts as the extension is
/// the platform's matter, so nothing is claimed of the result.
#[verifier::external_body]
pub(crate) fn path_extension(path: &str) -> (extension: Option<String>) {
    std::path::Path::new(path).extension().map(|e| e.to_string_lossy().into_owned())
}

/// `std::path::Path::starts_with`: whether `base` is a prefix of `path`,
/// component by component. What a component is is the platform's matter, so
/// nothing is claimed of the result.
#[verifier::external_body]
pub(crate) fn path_starts_with(path: &str, base: &str) -> (r: bool) {
    std::path::Path::new(path).starts_with(base)
}

/// `std::path::Path::join`, as text. Nothing is claimed of the result.
#[verifier::external_body]
pub(crate) fn path_join(dir: &str, name: &str) -> (joined: String) {
    std::path::Path::new(dir).join(name).to_string_lossy().into_owned()
}

/// The token that `jsonwebtoken::encode` signs with the secret, under the
/// default header, for the claims of the given names: texts, numbers and
/// lists of texts. Nothing where it reports an error.
pub uninterp spec fn jwt_signed(
    secret: Seq<char>,
    texts: Seq<(Seq<char>, Seq<char>)>,
    numbers: Seq<(Seq<char>, u64)>,
    lists: Seq<(Seq<char>, Seq<Seq<char>>)>,
) -> Option<Seq<char>>;

/// The claims as they are handed to and taken from the token library.
pub open spec fn text_pairs(v: Seq<(String, String)>) -> Seq<(Seq<char>, Seq<char>)> {
    Seq::new(v.len(), |i: int| (v[i].0@, v[i].1@))
}

/// The numbers among the claims.
pub open spec fn number_pairs(v: Seq<(String, u64)>) -> Seq<(Seq<char>, u64)> {
    Seq::new(v.len(), |i: int| (v[i].0@, v[i].1))
}

/// The lists among the claims.
pub open spec fn list_pairs(v: Seq<(String, Vec<String>)>) -> Seq<(Seq<char>, Seq<Seq<char>>)> {
    Seq::new(v.len(), |i: int| (v[i].0@, crate::text::views_of(v[i].1@)))
}

/// `jsonwebtoken::encode`, on a JSON object that holds the claims.
#[verifier::external_body]
pub(crate) fn jwt_encode(
    secret: &str,
    texts: &Vec<(String, String)>,
    numbers: &Vec<(String, u64)>,
    lists: &Vec<(String, Vec<String>)>,
) -> (token: Option<String>)
    ensures
        match token {
            Some(t) => jwt_signed(secret@, text_pairs(texts@), number_pairs(numbers@), list_pairs(lists@))
                == Some(t@),
            None => jwt_signed(secret@, text_pairs(texts@), number_pairs(numbers@), list_pairs(lists@))
                is None,
        },
{
    let mut claims = serde_json::Map::new();
    claims.extend(texts.iter().map(|(k, v)| (k.clone(), v.clone().into())));
    claims.extend(numbers.iter().map(|(k, v)| (k.clone(), (*v).into())));
    claims.extend(lists.iter().map(|(k, v)| (k.clone(), v.clone().into())));
    let key = jsonwebtoken::EncodingKey::from_secret(secret.as_bytes());
    jsonwebtoken::encode(&jsonwebtoken::Header::default(), &claims, &key).ok()
}

/// `jsonwebtoken::decode` under the default validation, which checks the
/// signature and the expiry against the clock: the claims of the token,
/// each with its name and its value, or nothing where the token does not
/// stand. The verdict depends on the time, so nothing is claimed of the
/// result.
#[verifier::external_body]
pub(crate) fn jwt_decode(secret: &str, token: &str) -> (claims: Option<
    Vec<(String, ClaimValue)>,
>) {
    let key = jsonwebtoken::DecodingKey::from_secret(secret.as_bytes());
    let data = jsonwebtoken::decode::<serde_json::Map<_, _>>(token, &key, &Default::default()).ok()?;
    let mut claims = Vec::new();
    for (name, value) in data.claims {
        claims.push((name, match value {
            serde_json::Value::String(s) => ClaimValue::Text(s),
            serde_json::Value::Number(n) => n.as_u64().map_or(ClaimValue::Other, ClaimValue::Number),
            serde_json::Value::Array(a) => serde_json::from_value(a.into()).map_or(ClaimValue::Other, ClaimValue::List),
            _ => ClaimValue::Other,
        }));
    }
    Some(claims)
}

/// The number that `str::parse` reads from a text as an `i32`; nothing
/// where the text is no such number.
pub uninterp spec fn parsed_i32(text: Seq<char>) -> Option<i32>;

/// `str::parse::<i32>`: the result is a function of the text.
#[verifier::external_body]
pub(crate) fn parse_i32(text: &str) -> (r: Option<i32>)
    ensures
        r == parsed_i32(text@),
{
    text.parse::<i32>().ok()
}

/// The number that `str::parse` reads from a text as a `usize`; nothing
/// where the text is no such number.
pub uninterp spec fn parsed_usize(text: Seq<char>) -> Option<usize>;

/// `str::parse::<usize>`: the result is a function of the text.
#[verifier::external_body]
pub(crate) fn parse_usize(text: &str) -> (r: Option<usize>)
    ensures
        r == parsed_usize(text@),
{
    text.parse::<usize>().ok()
}

/// The JSON text that `serde_json::to_string` writes for a list of texts;
/// nothing where it reports an error.
pub uninterp spec fn json_of_texts(list: Seq<Seq<char>>) -> Option<Seq<char>>;

/// `serde_json::to_string`, on a list of texts.
#[verifier::external_body]
pub(crate) fn texts_to_json(list: &Vec<String>) -> (json: Option<String>)
    ensures
        match json {
            Some(j) => json_of_texts(crate::text::views_of(list@)) == Some(j@),
            None => json_of_texts(crate::text::views_of(list@)) is None,
        },
{
    serde_json::to_string(list).ok()
}

/// The list of texts that `serde_json::from_str` reads from a JSON text;
/// nothing where the text is no such list.
pub uninterp spec fn texts_of_json(json: Seq<char>) -> Option<Seq<Seq<char>>>;

/// `serde_json::from_str`, for a list of texts.
#[verifier::external_body]
pub(crate) fn texts_from_json(json: &str) -> (list: Option<Vec<String>>)
    ensures
        match list {
            Some(l) => texts_of_json(json@) == Some(crate::text::views_of(l@)),
            None => texts_of_json(json@) is None,
        },
{
    serde_json::from_str::<Vec<String>>(json).ok()
}

/// Whether `str::parse` reads a text as an `ipnetwork::Ipv4Network`: an
/// IPv4 network in CIDR notation.
pub uninterp spec fn is_ipv4_network(text: Seq<char>) -> bool;

/// `ipnetwork::Ipv4Network::from_str`: whether the text is read is a
/// function of the text.
#[verifier::external_body]
pub(crate) fn parses_as_ipv4_network(text: &str) -> (r: bool)
    ensures
        r == is_ipv4_network(text@),
{
    text.parse::<ipnetwork::Ipv4Network>().is_ok()
}

/// `String::from_utf8`: the text that the bytes encode, or nothing where
/// the bytes are no UTF-8.
#[verifier::external_body]
pub(crate) fn string_from_utf8(bytes: Vec<u8>) -> (text: Option<String>)
    ensures
        match text {
            Some(t) => vstd::utf8::valid_utf8(bytes@) && t@ == vstd::utf8::decode_utf8(bytes@),
            None => !vstd::utf8::valid_utf8(bytes@),
        },
{
    String::from_utf8(bytes).ok()
}

} // verus!
