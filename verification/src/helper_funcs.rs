//! The path codec: reading the path convention out of an image URL and
//! writing a URL whose path or host has been replaced.
//!
//! URL syntax is left to the `url` crate. What it computes is named by the
//! spec functions `url_path`, `url_with_path` and `url_with_host`, and
//! nothing more is assumed of it. The functions of this module are specified
//! over those names and over the path convention of [`crate::path`]: a
//! contract says which path or host is handed to the `url` crate for which
//! image, and that the result is what the crate makes of it.

use crate::path::{parse_path, stage_path, ImagePath, ImagePathView};
use url::Url;
use vstd::prelude::*;

verus! {

/// The longest text, in characters, that is handed to the URL parser. The
/// parser addresses a URL with 32-bit offsets; staying far below that keeps
/// every rewritten URL within its reach.
pub const MAX_URL_CHARS: usize = 16_777_216;

/// Why an image URL could not be read or rewritten.
#[derive(Clone, Copy, Debug, PartialEq, Eq, Structural)]
pub enum CodecError {
    /// A text is longer than [`MAX_URL_CHARS`].
    TooLong,
    /// The text is not an absolute URL.
    InvalidUrl,
    /// The URL's path does not start with `/` or has fewer than three segments.
    MalformedPath,
    /// The URL cannot take the host: it has no place for one, or the host is
    /// not valid for it.
    HostRewrite,
}

/// The path component of the URL that `input` parses to, percent-encoded as
/// the `url` crate serialises it; `None` where `input` is not an absolute URL.
pub uninterp spec fn url_path(input: Seq<char>) -> Option<Seq<char>>;

/// The serialisation of the URL that `input` parses to after its path has been
/// set to `path`; `None` where `input` is not an absolute URL.
pub uninterp spec fn url_with_path(input: Seq<char>, path: Seq<char>) -> Option<Seq<char>>;

/// The serialisation of the URL that `input` parses to after its host has been
/// set to `host`; `None` where `input` is not an absolute URL or the URL does
/// not accept the host.
pub uninterp spec fn url_with_host(input: Seq<char>, host: Seq<char>) -> Option<Seq<char>>;

/// Calls `Url::parse` on `input` and `Url::path` on the URL it gives.
///
/// Trusted: the result is what `url_path` names, and is `None` exactly where
/// `Url::parse` fails. Both functions read nothing but their argument. The
/// segments that `Url::path_segments` hands out are those of this path: what
/// follows its leading `/`, split at every `/`, and none where the path does
/// not start with `/`. The bound on `input` keeps the call away from the
/// parser's limit of 4 GB.
#[verifier::external_body]
fn path_of(input: &str) -> (path: Option<String>)
    requires
        input@.len() <= MAX_URL_CHARS,
    ensures
        path is Some <==> url_path(input@) is Some,
        path matches Some(p) ==> url_path(input@) == Some(p@),
{
    match Url::parse(input) {
        Ok(url) => Some(url.path().to_string()),
        Err(_) => None,
    }
}

/// Calls `Url::parse` on `input`, `Url::set_path` with `path` on the URL it
/// gives, and hands out the serialisation of the URL.
///
/// Trusted: the result is what `url_with_path` names, `None` exactly where
/// `Url::parse` fails: `set_path` itself cannot fail. `set_path` panics where
/// the serialisation grows over 4 GB; the bounds on `input` and `path` keep
/// far below that.
#[verifier::external_body]
fn with_path(input: &str, path: &str) -> (url: Option<String>)
    requires
        input@.len() <= MAX_URL_CHARS,
        path@.len() <= MAX_URL_CHARS,
    ensures
        url is Some <==> url_with_path(input@, path@) is Some,
        url matches Some(u) ==> url_with_path(input@, path@) == Some(u@),
{
    match Url::parse(input) {
        Ok(mut url) => {
            url.set_path(path);
            Some(String::from(url))
        },
        Err(_) => None,
    }
}

/// Calls `Url::parse` on `input`, `Url::set_host` with `Some(host)` on the URL
/// it gives, and hands out the serialisation of the URL.
///
/// Trusted: the result is what `url_with_host` names, `None` where either
/// call fails. `set_host` panics where the serialisation grows over 4 GB; the
/// bounds on `input` and `host` keep far below that.
#[verifier::external_body]
fn with_host(input: &str, host: &str) -> (url: Option<String>)
    requires
        input@.len() <= MAX_URL_CHARS,
        host@.len() <= MAX_URL_CHARS,
    ensures
        url is Some <==> url_with_host(input@, host@) is Some,
        url matches Some(u) ==> url_with_host(input@, host@) == Some(u@),
{
    match Url::parse(input) {
        Ok(mut url) => match url.set_host(Some(host)) {
            Ok(()) => Some(String::from(url)),
            Err(_) => None,
        },
        Err(_) => None,
    }
}

/// A codec result with the text, if any, taken by its view.
pub open spec fn text_of(result: Result<String, CodecError>) -> Result<Seq<char>, CodecError> {
    match result {
        Ok(text) => Ok(text@),
        Err(e) => Err(e),
    }
}

/// A decoding result with the parts, if any, taken by their view.
pub open spec fn parts_of(result: Result<ImagePath, CodecError>) -> Result<
    ImagePathView,
    CodecError,
> {
    match result {
        Ok(parts) => Ok(parts@),
        Err(e) => Err(e),
    }
}

/// What [`decode`] returns for an image URL.
pub open spec fn decoded(image: Seq<char>) -> Result<ImagePathView, CodecError> {
    if image.len() > MAX_URL_CHARS {
        Err(CodecError::TooLong)
    } else {
        match url_path(image) {
            None => Err(CodecError::InvalidUrl),
            Some(path) => match parse_path(path) {
                None => Err(CodecError::MalformedPath),
                Some(parts) => Ok(parts),
            },
        }
    }
}

/// What [`encode_fixed_path`] returns for an image URL and a path.
pub open spec fn with_fixed_path(image: Seq<char>, path: Seq<char>) -> Result<
    Seq<char>,
    CodecError,
> {
    if image.len() > MAX_URL_CHARS || path.len() > MAX_URL_CHARS {
        Err(CodecError::TooLong)
    } else {
        match url_with_path(image, path) {
            None => Err(CodecError::InvalidUrl),
            Some(url) => Ok(url),
        }
    }
}

/// What [`increment_image_stage`] returns for an image URL and a stage: the
/// URL with its path set to `{folder}/{stage}/{file}`, folder and file being
/// those that [`decode`] reads.
pub open spec fn staged(image: Seq<char>, stage: nat) -> Result<Seq<char>, CodecError> {
    match decoded(image) {
        Err(e) => Err(e),
        Ok(parts) => with_fixed_path(image, stage_path(parts.folder, stage, parts.file)),
    }
}

/// What [`replace_host`] returns for an image URL and a host.
pub open spec fn rehosted(image: Seq<char>, host: Seq<char>) -> Result<Seq<char>, CodecError> {
    if image.len() > MAX_URL_CHARS || host.len() > MAX_URL_CHARS {
        Err(CodecError::TooLong)
    } else {
        match url_with_host(image, host) {
            None => Err(CodecError::HostRewrite),
            Some(url) => Ok(url),
        }
    }
}

/// Reads folder, stage and file out of the path of an image URL.
///
/// Fails with `InvalidUrl` before any look at the path if the text is not a
/// URL, and with `MalformedPath` if the path has fewer than three segments.
pub fn decode(image: &str) -> (parts: Result<ImagePath, CodecError>)
    ensures
        parts_of(parts) == decoded(image@),
{
    if image.unicode_len() > MAX_URL_CHARS {
        return Err(CodecError::TooLong);
    }
    match path_of(image) {
        None => Err(CodecError::InvalidUrl),
        Some(path) => match ImagePath::parse(path.as_str()) {
            None => Err(CodecError::MalformedPath),
            Some(parts) => Ok(parts),
        },
    }
}

/// Replaces the whole path of an image URL by `path`, keeping scheme, host,
/// query and fragment.
pub fn encode_fixed_path(image: &str, path: &str) -> (url: Result<String, CodecError>)
    ensures
        text_of(url) == with_fixed_path(image@, path@),
{
    if image.unicode_len() > MAX_URL_CHARS || path.unicode_len() > MAX_URL_CHARS {
        return Err(CodecError::TooLong);
    }
    match with_path(image, path) {
        None => Err(CodecError::InvalidUrl),
        Some(url) => Ok(url),
    }
}

/// Moves an image URL to a stage: its path becomes `{folder}/{new_stage}/{file}`
/// with the folder and file it had; scheme, host and query stay.
pub fn increment_image_stage(path: &str, new_stage: u8) -> (url: Result<String, CodecError>)
    ensures
        text_of(url) == staged(path@, new_stage as nat),
{
    match decode(path) {
        Err(e) => Err(e),
        Ok(parts) => {
            let new_path = parts.with_stage(new_stage);
            encode_fixed_path(path, new_path.as_str())
        },
    }
}

/// Replaces the host of an image URL by `host`, leaving the rest to the URL
/// as it was.
pub fn replace_host(image: &str, host: &str) -> (url: Result<String, CodecError>)
    ensures
        text_of(url) == rehosted(image@, host@),
{
    if image.unicode_len() > MAX_URL_CHARS || host.unicode_len() > MAX_URL_CHARS {
        return Err(CodecError::TooLong);
    }
    match with_host(image, host) {
        None => Err(CodecError::HostRewrite),
        Some(url) => Ok(url),
    }
}

} // verus!
