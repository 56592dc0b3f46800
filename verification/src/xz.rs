//! The call into the `xz2` crate, which binds liblzma.

use vstd::prelude::*;
use std::io::Write;

verus! {

/// `std::io::Error`, which the encoder reports.
#[verifier::external_type_specification]
#[verifier::external_body]
pub struct ExIoError(std::io::Error);

/// The xz stream that liblzma makes of `data` at preset `level`. To name it
/// is to take the encoder for a function of its input: one build of
/// liblzma, run in one thread as here, gives the same stream for the same
/// bytes and preset. Nothing is said of what the stream holds.
pub uninterp spec fn xz_compressed(data: Seq<u8>, level: u32) -> Seq<u8>;

/// Runs `data` through `xz2::write::XzEncoder` at preset `level` in one pass
/// and returns the stream. The constructor panics on a preset that liblzma
/// does not know, hence the bound. Whether the encoder succeeds is left open.
#[verifier::external_body]
pub(crate) fn xz_encode(data: &[u8], level: u32) -> (stream: Result<Vec<u8>, std::io::Error>)
    requires
        level <= 9,
    ensures
        stream matches Ok(bytes) ==> bytes@ == xz_compressed(data@, level),
{
    let mut encoder = xz2::write::XzEncoder::new(Vec::new(), level);
    encoder.write_all(data)?;
    encoder.finish()
}

/// The text of an I/O error, by its `Display`.
#[verifier::external_body]
pub(crate) fn io_error_text(error: &std::io::Error) -> (text: String) {
    error.to_string()
}

} // verus!
