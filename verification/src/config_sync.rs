//! Exchange of the tasks file with the server: the file travels gzip
//! compressed and base64 encoded; the server's answer to a configuration
//! check decides whether a new file is applied or the local one uploaded.
use vstd::prelude::*;
use vstd::utf8::{decode_utf8, encode_utf8, valid_utf8};

verus! {

broadcast use vstd::string::group_string_axioms;

/// `base64::DecodeError`, held opaque.
#[verifier::external_type_specification]
#[verifier::external_body]
pub struct ExBase64DecodeError(base64::DecodeError);

/// Standard base64 (with padding) of a byte string.
pub uninterp spec fn base64_encode(data: Seq<u8>) -> Seq<char>;

/// The bytes of a standard base64 text; `None` for a text that is no valid
/// encoding.
pub uninterp spec fn base64_decode(text: Seq<char>) -> Option<Seq<u8>>;

/// A gzip stream of a byte string, at the default compression level.
pub uninterp spec fn gzip_compress(data: Seq<u8>) -> Seq<u8>;

/// The text held by a gzip stream; `None` when the stream is corrupt or
/// its content is not UTF-8.
pub uninterp spec fn gzip_text(data: Seq<u8>) -> Option<Seq<char>>;

/// `base64::engine::general_purpose::STANDARD.encode`. Claimed: the result is
/// `base64_encode` of the input, and decoding it gives back the input. The
/// input is bounded so that the length of the encoding cannot overflow, on
/// which the crate panics.
#[verifier::external_body]
fn base64_standard_encode(data: &[u8]) -> (r: String)
    requires
        data@.len() <= usize::MAX / 2,
    ensures
        r@ == base64_encode(data@),
        base64_decode(r@) == Some(data@),
{
    base64::Engine::encode(&base64::engine::general_purpose::STANDARD, data)
}

/// `base64::engine::general_purpose::STANDARD.decode`. Claimed: it succeeds
/// exactly when `base64_decode` gives bytes, and gives those.
#[verifier::external_body]
fn base64_standard_decode(text: &str) -> (r: Result<Vec<u8>, base64::DecodeError>)
    ensures
        (r matches Ok(v) ==> base64_decode(text@) == Some(v@)),
        (r is Err) == (base64_decode(text@) is None),
{
    base64::Engine::decode(&base64::engine::general_purpose::STANDARD, text)
}

/// `flate2::write::GzEncoder` over a `Vec`, at the default level: the data
/// written with `write_all`, then `finish`. Claimed: writing into a `Vec`
/// does not fail, the stream is `gzip_compress` of the data, and reading it
/// back gives the data's text when the data is UTF-8.
#[verifier::external_body]
fn gzip_encode(data: &[u8]) -> (r: Option<Vec<u8>>)
    ensures
        r is Some,
        (r matches Some(v) ==> v@ == gzip_compress(data@)),
        (r matches Some(v) ==> (valid_utf8(data@) ==> gzip_text(v@) == Some(decode_utf8(data@)))),
{
    let mut encoder = flate2::write::GzEncoder::new(Vec::new(), flate2::Compression::default());
    if std::io::Write::write_all(&mut encoder, data).is_err() {
        return None;
    }
    encoder.finish().ok()
}

/// `flate2::read::GzDecoder` read with `read_to_string`. Claimed: the text
/// read is `gzip_text` of the stream.
#[verifier::external_body]
fn gzip_decode_text(data: &[u8]) -> (r: Option<String>)
    ensures
        (r matches Some(s) ==> gzip_text(data@) == Some(s@)),
        (r is None) == (gzip_text(data@) is None),
{
    let mut decoder = flate2::read::GzDecoder::new(data);
    let mut text = String::new();
    match std::io::Read::read_to_string(&mut decoder, &mut text) {
        Ok(_) => Some(text),
        Err(_) => None,
    }
}

/// Why a tasks file could not be packed or unpacked.
#[derive(Debug, Clone, Copy, PartialEq, Eq, Structural)]
pub enum PayloadError {
    /// Compressing the file failed.
    Compress,
    /// The payload is not valid base64.
    Base64,
    /// The payload is no gzip stream of UTF-8 text.
    Decompress,
}

impl PayloadError {
    /// The message of the error.
    pub fn message(&self) -> (s: String)
        ensures
            s@ == payload_error_text(*self),
    {
        match self {
            PayloadError::Compress => String::from_str("Failed to compress tasks config"),
            PayloadError::Base64 => String::from_str("Failed to decode base64 config"),
            PayloadError::Decompress => String::from_str("Failed to decompress config"),
        }
    }
}

/// The message of a payload error.
pub open spec fn payload_error_text(e: PayloadError) -> Seq<char> {
    match e {
        PayloadError::Compress => "Failed to compress tasks config"@,
        PayloadError::Base64 => "Failed to decode base64 config"@,
        PayloadError::Decompress => "Failed to decompress config"@,
    }
}

/// The payload that carries a tasks file: base64 of the gzip stream of its
/// UTF-8 bytes.
pub open spec fn payload_of(content: Seq<char>) -> Seq<char> {
    base64_encode(gzip_compress(encode_utf8(content)))
}

/// What unpacking a payload gives: the file, or the stage that failed.
pub open spec fn unpacked(payload: Seq<char>) -> Result<Seq<char>, PayloadError> {
    match base64_decode(payload) {
        None => Err(PayloadError::Base64),
        Some(bytes) => match gzip_text(bytes) {
            Some(t) => Ok(t),
            None => Err(PayloadError::Decompress),
        },
    }
}

/// Packs a tasks file for the server. It succeeds unless the compressed
/// file is too long for its base64 text to be sized; unpacking the payload
/// gives back the file.
pub fn encode_tasks_payload(content: &str) -> (r: Result<String, PayloadError>)
    ensures
        (r is Ok) == (gzip_compress(encode_utf8(content@)).len() <= usize::MAX / 2),
        (r matches Ok(p) ==> p@ == payload_of(content@) && unpacked(p@) == Ok::<
            Seq<char>,
            PayloadError,
        >(content@)),
        (r matches Err(e) ==> e == PayloadError::Compress),
{
    broadcast use vstd::utf8::encode_utf8_valid_utf8, vstd::utf8::encode_utf8_decode_utf8;

    match gzip_encode(content.as_bytes()) {
        Some(compressed) => {
            if compressed.len() <= usize::MAX / 2 {
                Ok(base64_standard_encode(compressed.as_slice()))
            } else {
                Err(PayloadError::Compress)
            }
        },
        None => Err(PayloadError::Compress),
    }
}

/// Unpacks a tasks file sent by the server.
pub fn decode_tasks_payload(payload: &str) -> (r: Result<String, PayloadError>)
    ensures
        match unpacked(payload@) {
            Ok(t) => (r matches Ok(s) && s@ == t),
            Err(e) => r == Err::<String, PayloadError>(e),
        },
{
    match base64_standard_decode(payload) {
        Err(_) => Err(PayloadError::Base64),
        Ok(bytes) => match gzip_decode_text(bytes.as_slice()) {
            Some(text) => Ok(text),
            None => Err(PayloadError::Decompress),
        },
    }
}

/// The server's verdict on the agent's tasks file.
#[derive(Debug, Clone, Copy, PartialEq, Eq, Structural)]
pub enum ConfigStatus {
    /// The server holds the same tasks file.
    UpToDate,
    /// The server's tasks file differs from the agent's.
    Stale,
}

/// What the agent does after a configuration check.
#[derive(Debug, Clone, PartialEq, Eq)]
pub enum ConfigAction {
    /// Nothing: the file is current.
    Keep,
    /// Replace the tasks file by this content and restart the scheduler.
    Apply(String),
    /// The server has no file for this agent: upload the local one.
    Upload,
}

/// The action for the server's answer to a configuration check: a stale
/// file with a payload is replaced by the unpacked payload, a stale file
/// without one is uploaded, a current one is kept.
pub fn config_action(status: ConfigStatus, tasks_toml: Option<String>) -> (r: Result<
    ConfigAction,
    PayloadError,
>)
    ensures
        status == ConfigStatus::UpToDate ==> r == Ok::<ConfigAction, PayloadError>(ConfigAction::Keep),
        status == ConfigStatus::Stale && tasks_toml is None ==> r == Ok::<
            ConfigAction,
            PayloadError,
        >(ConfigAction::Upload),
        status == ConfigStatus::Stale && tasks_toml is Some ==> match unpacked(tasks_toml->0@) {
            Ok(t) => (r matches Ok(ConfigAction::Apply(s)) && s@ == t),
            Err(e) => r == Err::<ConfigAction, PayloadError>(e),
        },
{
    match status {
        ConfigStatus::UpToDate => Ok(ConfigAction::Keep),
        ConfigStatus::Stale => match tasks_toml {
            None => Ok(ConfigAction::Upload),
            Some(payload) => match decode_tasks_payload(payload.as_str()) {
                Ok(text) => Ok(ConfigAction::Apply(text)),
                Err(e) => Err(e),
            },
        },
    }
}

} // verus!
