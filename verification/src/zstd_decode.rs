//! Decompression of request bodies at the ingestion edge.

use crate::error::{AppError, AppErrorView};
use crate::text::{
    concat2, eq_ignore_ascii_case, has_prefix, lemma_prefix_of_concat, str_eq_ignore_ascii_case,
};
use crate::validation::{body_outcome, validate_body_size};
use vstd::prelude::*;
use vstd::string::*;

verus! {

/// Trusted: `std::io::Error` is taken as an opaque type. It is only carried
/// from the call that failed to [`io_error_text`].
#[verifier::external_type_specification]
#[verifier::external_body]
pub struct ExIoError(std::io::Error);

/// What stands before the decoder's complaint when a body does not
/// decompress.
pub const DECOMPRESS_FAILURE_PREFIX: &'static str = "Failed to decompress zstd body: ";

/// What is said of a compressed body that is over the limit before it is
/// even decompressed.
pub const COMPRESSED_TOO_LARGE: &'static str = "Compressed request body is too large";

/// What `data` decompresses to as a sequence of zstd frames; `None` where it
/// is not one.
pub uninterp spec fn zstd_decoded(data: Seq<u8>) -> Option<Seq<u8>>;

/// Trusted: `zstd::decode_all` over the bytes of `data`. Whether it succeeds
/// and what it yields depend on the bytes alone.
#[verifier::external_body]
fn zstd_decode_all(data: &[u8]) -> (r: Result<Vec<u8>, std::io::Error>)
    ensures
        r matches Ok(plain) ==> zstd_decoded(data@) == Some(plain@),
        r is Err ==> zstd_decoded(data@) is None,
{
    zstd::decode_all(data)
}

/// Trusted: the `Display` text of a `std::io::Error`.
#[verifier::external_body]
fn io_error_text(e: &std::io::Error) -> (r: String) {
    e.to_string()
}

/// Whether a `Content-Encoding` of this value announces a zstd body: the
/// value is `zstd` in any mix of upper and lower case.
pub open spec fn announces_zstd(content_encoding: Option<Seq<char>>) -> bool {
    content_encoding matches Some(value) && eq_ignore_ascii_case(value, "zstd"@)
}

/// What is made of a body that decompressed to `plain`, or did not and left
/// the complaint `detail`.
pub open spec fn judged(decoded: Result<Seq<u8>, Seq<char>>) -> Result<Seq<u8>, AppErrorView> {
    match decoded {
        Err(detail) => Err(AppErrorView::Validation(DECOMPRESS_FAILURE_PREFIX@ + detail)),
        Ok(plain) => match body_outcome(plain.len()) {
            Err(e) => Err(e),
            Ok(_) => Ok(plain),
        },
    }
}

/// The mathematical value of a decoded body or the error in its place.
pub open spec fn body_view(r: Result<Vec<u8>, AppError>) -> Result<Seq<u8>, AppErrorView> {
    match r {
        Ok(plain) => Ok(plain@),
        Err(e) => Err(e@),
    }
}

/// Whether the request body is to be decompressed: only where
/// `Content-Encoding` says `zstd`. Any other body, and a body without the
/// header, passes as it is.
pub fn needs_decoding(content_encoding: &Option<String>) -> (r: bool)
    ensures
        r == announces_zstd(content_encoding.deep_view()),
{
    match content_encoding {
        Some(value) => str_eq_ignore_ascii_case(value.as_str(), "zstd"),
        None => false,
    }
}

/// Judges what decompression gave: a failure is a validation error, a body
/// over 4 MiB is too large, anything else is the request's new body.
pub fn accept_decoded(decoded: Result<Vec<u8>, String>) -> (r: Result<Vec<u8>, AppError>)
    ensures
        body_view(r) == judged(
            match decoded {
                Ok(plain) => Ok(plain@),
                Err(detail) => Err(detail@),
            },
        ),
{
    match decoded {
        Err(detail) => Err(
            AppError::Validation(concat2(DECOMPRESS_FAILURE_PREFIX, detail.as_str())),
        ),
        Ok(plain) => match validate_body_size(plain.as_slice()) {
            Err(e) => Err(e),
            Ok(_) => Ok(plain),
        },
    }
}

/// Decompresses a zstd body. `compressed` is the body as read under the size
/// limit, or `None` where it was over the limit already. The decompressed
/// body is held to the same limit.
pub fn decode_zstd_body(compressed: &Option<Vec<u8>>) -> (r: Result<Vec<u8>, AppError>)
    ensures
        compressed is None ==> body_view(r) == Err::<Seq<u8>, AppErrorView>(
            AppErrorView::PayloadTooLarge(COMPRESSED_TOO_LARGE@),
        ),
        compressed matches Some(data) ==> match zstd_decoded(data@) {
            Some(plain) => body_view(r) == judged(Ok(plain)),
            None => r matches Err(e) && e@ matches AppErrorView::Validation(m) && has_prefix(
                m,
                DECOMPRESS_FAILURE_PREFIX@,
            ),
        },
{
    match compressed {
        None => Err(AppError::PayloadTooLarge(String::from_str(COMPRESSED_TOO_LARGE))),
        Some(data) => {
            let decoded = match zstd_decode_all(data.as_slice()) {
                Ok(plain) => Ok(plain),
                Err(e) => Err(io_error_text(&e)),
            };
            let r = accept_decoded(decoded);
            assert forall|detail: Seq<char>|
                has_prefix(
                    #[trigger] (DECOMPRESS_FAILURE_PREFIX@ + detail),
                    DECOMPRESS_FAILURE_PREFIX@,
                ) by {
                lemma_prefix_of_concat(DECOMPRESS_FAILURE_PREFIX@, detail);
            }
            r
        },
    }
}

} // verus!
