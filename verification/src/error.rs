//! Errors of the patching engine.

use vstd::prelude::*;
use vstd::string::StringExecFns;
use crate::text::{decimal, decimal_digits, decimal_string, digits_string};

verus! {

/// The four classes of failure.
#[derive(Debug, Clone, Copy, PartialEq, Eq, Structural)]
pub enum ErrorKind {
    /// The input is not a container of the supported format.
    Format,
    /// The sentinel or the payload section is not where it must be.
    Structure,
    /// The payload could not be encoded.
    Codec,
    /// The container could not be parsed or written.
    Rewrite,
}

/// Why an operation of the engine failed.
#[derive(Debug, Clone, PartialEq, Eq)]
pub enum PatchError {
    /// The buffer is shorter than a sentinel or does not start with the ELF magic.
    InvalidElf,
    /// The binary holds no sentinel.
    SentinelNotFound,
    /// The sentinel stood at `previous` before the rewrite and is gone after it.
    SentinelLost { previous: usize },
    /// The sentinel's version was `before` in the binary and is `after` in
    /// the rewritten one.
    VersionChanged { before: i32, after: i32 },
    /// The rewritten binary has no section of the payload's name.
    SectionNotFound,
    /// The payload section occupies no bytes of the file.
    SectionWithoutData,
    /// The payload section does not hold the payload at the range it reports.
    SectionMismatch { offset: u64, size: u64 },
    /// A length or an offset does not fit the sentinel's 32-bit field.
    FieldOverflow,
    /// The compressor failed.
    Compression(String),
    /// The payload record could not be serialized.
    Serialization(String),
    /// The section table holds what the ELF writer cannot take: a hash
    /// section whose header is at fault, or a section alignment beyond 4 GiB.
    UnsupportedLayout,
    /// The container could not be parsed.
    Parse(String),
    /// The container could not be written.
    Write(String),
}

impl PatchError {
    /// The class of this error.
    pub open spec fn spec_kind(&self) -> ErrorKind {
        match self {
            PatchError::InvalidElf => ErrorKind::Format,
            PatchError::SentinelNotFound => ErrorKind::Structure,
            PatchError::SentinelLost { .. } => ErrorKind::Structure,
            PatchError::VersionChanged { .. } => ErrorKind::Structure,
            PatchError::UnsupportedLayout => ErrorKind::Rewrite,
            PatchError::SectionNotFound => ErrorKind::Structure,
            PatchError::SectionWithoutData => ErrorKind::Structure,
            PatchError::SectionMismatch { .. } => ErrorKind::Structure,
            PatchError::FieldOverflow => ErrorKind::Structure,
            PatchError::Compression(_) => ErrorKind::Codec,
            PatchError::Serialization(_) => ErrorKind::Codec,
            PatchError::Parse(_) => ErrorKind::Rewrite,
            PatchError::Write(_) => ErrorKind::Rewrite,
        }
    }

    /// The error as a line of text.
    pub open spec fn spec_message(&self) -> Seq<char> {
        match self {
            PatchError::InvalidElf => "Invalid ELF binary"@,
            PatchError::SentinelNotFound => "Cannot found embedded config"@,
            PatchError::SentinelLost { previous } => "Embedded config at offset "@
                + decimal_digits(*previous as nat) + " is lost in the rewritten binary"@,
            PatchError::VersionChanged { before, after } => "Embedded config version changed from "@
                + decimal(*before as int) + " to "@ + decimal(*after as int),
            PatchError::UnsupportedLayout => "Unsupported ELF section table"@,
            PatchError::SectionNotFound => "Cannot find .fripack_config section"@,
            PatchError::SectionWithoutData => "Cannot get file range of .fripack_config section"@,
            PatchError::SectionMismatch { offset, size } => ".fripack_config section at offset "@
                + decimal_digits(*offset as nat) + " with size "@ + decimal_digits(*size as nat)
                + " does not hold the payload"@,
            PatchError::FieldOverflow => "Payload size or offset does not fit in 32 bits"@,
            PatchError::Compression(detail) => "Failed to compress payload: "@ + detail@,
            PatchError::Serialization(detail) => "Failed to serialize payload: "@ + detail@,
            PatchError::Parse(detail) => detail@,
            PatchError::Write(detail) => detail@,
        }
    }

    /// The error as a line of text.
    pub fn message(&self) -> (text: String)
        ensures
            text@ == self.spec_message(),
    {
        match self {
            PatchError::InvalidElf => "Invalid ELF binary".to_owned(),
            PatchError::SentinelNotFound => "Cannot found embedded config".to_owned(),
            PatchError::SentinelLost { previous } => "Embedded config at offset ".to_owned().concat(
                digits_string(*previous as u64).as_str(),
            ).concat(" is lost in the rewritten binary"),
            PatchError::VersionChanged { before, after } => {
                "Embedded config version changed from ".to_owned().concat(
                    decimal_string(*before).as_str(),
                ).concat(" to ").concat(decimal_string(*after).as_str())
            },
            PatchError::UnsupportedLayout => "Unsupported ELF section table".to_owned(),
            PatchError::SectionNotFound => "Cannot find .fripack_config section".to_owned(),
            PatchError::SectionWithoutData => {
                "Cannot get file range of .fripack_config section".to_owned()
            },
            PatchError::SectionMismatch { offset, size } => {
                ".fripack_config section at offset ".to_owned().concat(
                    digits_string(*offset).as_str(),
                ).concat(" with size ").concat(digits_string(*size).as_str()).concat(
                    " does not hold the payload",
                )
            },
            PatchError::FieldOverflow => {
                "Payload size or offset does not fit in 32 bits".to_owned()
            },
            PatchError::Compression(detail) => "Failed to compress payload: ".to_owned().concat(
                detail.as_str(),
            ),
            PatchError::Serialization(detail) => "Failed to serialize payload: ".to_owned().concat(
                detail.as_str(),
            ),
            PatchError::Parse(detail) => detail.clone(),
            PatchError::Write(detail) => detail.clone(),
        }
    }

    /// The class of this error.
    pub fn kind(&self) -> (k: ErrorKind)
        ensures
            k == self.spec_kind(),
    {
        match self {
            PatchError::InvalidElf => ErrorKind::Format,
            PatchError::SentinelNotFound => ErrorKind::Structure,
            PatchError::SentinelLost { .. } => ErrorKind::Structure,
            PatchError::VersionChanged { .. } => ErrorKind::Structure,
            PatchError::UnsupportedLayout => ErrorKind::Rewrite,
            PatchError::SectionNotFound => ErrorKind::Structure,
            PatchError::SectionWithoutData => ErrorKind::Structure,
            PatchError::SectionMismatch { .. } => ErrorKind::Structure,
            PatchError::FieldOverflow => ErrorKind::Structure,
            PatchError::Compression(_) => ErrorKind::Codec,
            PatchError::Serialization(_) => ErrorKind::Codec,
            PatchError::Parse(_) => ErrorKind::Rewrite,
            PatchError::Write(_) => ErrorKind::Rewrite,
        }
    }
}

} // verus!
