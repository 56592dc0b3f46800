//! The payload codec: the record that is embedded and its serialized form.
//!
//! A record is written as one JSON object with the members `mode`,
//! `js_filepath` and `js_content`, in this order and without white space.

use vstd::prelude::*;
use vstd::string::StringExecFns;
use crate::binary::{final_payload, stored_bytes};
use crate::error::PatchError;
use crate::json_text::{
    json_error_text, json_string, json_string_literal, utf8_lossy, utf8_lossy_text,
};
use crate::text::{decimal, decimal_string};

verus! {

/// The mode of a record whose script is embedded.
pub const MODE_EMBEDDED_JS: i32 = 1;

/// The record that is embedded in a binary.
#[derive(Debug, Clone)]
pub struct EmbeddedConfigData {
    /// What the runtime is to do with the script.
    pub mode: i32,
    /// Path of the script.
    pub js_filepath: Option<String>,
    /// Text of the script.
    pub js_content: Option<String>,
}

/// What an [`EmbeddedConfigData`] holds, with texts as sequences of characters.
pub struct PayloadModel {
    pub mode: i32,
    pub js_filepath: Option<Seq<char>>,
    pub js_content: Option<Seq<char>>,
}

impl DeepView for EmbeddedConfigData {
    type V = PayloadModel;

    open spec fn deep_view(&self) -> PayloadModel {
        PayloadModel {
            mode: self.mode,
            js_filepath: self.js_filepath.deep_view(),
            js_content: self.js_content.deep_view(),
        }
    }
}

/// A text member of the record: `null` where it is absent, else its JSON string literal.
pub open spec fn json_member(text: Option<Seq<char>>) -> Seq<char> {
    match text {
        None => "null"@,
        Some(t) => json_string_literal(t),
    }
}

/// The serialized form of a record.
pub open spec fn spec_json(record: PayloadModel) -> Seq<char> {
    "{\"mode\":"@ + decimal(record.mode as int) + ",\"js_filepath\":"@ + json_member(
        record.js_filepath,
    ) + ",\"js_content\":"@ + json_member(record.js_content) + "}"@
}

/// The bytes of a text in UTF-8.
pub open spec fn utf8_bytes(text: Seq<char>) -> Seq<u8> {
    vstd::utf8::encode_utf8(text)
}

fn member_string(text: &Option<String>) -> (member: Result<String, PatchError>)
    ensures
        member matches Ok(m) && m@ == json_member(text.deep_view()),
{
    match text {
        None => Ok("null".to_owned()),
        Some(t) => match json_string(t.as_str()) {
            Ok(literal) => Ok(literal),
            Err(e) => Err(PatchError::Serialization(json_error_text(&e))),
        },
    }
}

impl EmbeddedConfigData {
    /// The record for a script: its path and its text, which is `content`
    /// read as UTF-8 with every ill-formed sequence replaced.
    pub fn embedded_js(path: &str, content: &[u8]) -> (record: Self)
        ensures
            record.deep_view() == (PayloadModel {
                mode: MODE_EMBEDDED_JS,
                js_filepath: Some(path@),
                js_content: Some(utf8_lossy_text(content@)),
            }),
    {
        EmbeddedConfigData {
            mode: MODE_EMBEDDED_JS,
            js_filepath: Some(path.to_owned()),
            js_content: Some(utf8_lossy(content)),
        }
    }

    /// Serializes the record as JSON text.
    pub fn to_json(&self) -> (text: Result<String, PatchError>)
        ensures
            text matches Ok(t) && t@ == spec_json(self.deep_view()),
    {
        let path = match member_string(&self.js_filepath) {
            Ok(path) => path,
            Err(e) => {
                return Err(e);
            },
        };
        let content = match member_string(&self.js_content) {
            Ok(content) => content,
            Err(e) => {
                return Err(e);
            },
        };
        let text = "{\"mode\":".to_owned().concat(decimal_string(self.mode).as_str()).concat(
            ",\"js_filepath\":",
        ).concat(path.as_str()).concat(",\"js_content\":").concat(content.as_str()).concat("}");
        Ok(text)
    }

    /// The bytes that are stored for the record: its JSON text in UTF-8,
    /// or the xz stream of that where `use_xz` is set.
    pub fn encode(&self, use_xz: bool) -> (stored: Result<Vec<u8>, PatchError>)
        ensures
            stored matches Ok(bytes) ==> bytes@ == stored_bytes(
                utf8_bytes(spec_json(self.deep_view())),
                use_xz,
            ),
            !use_xz ==> stored is Ok,
            stored matches Err(e) ==> use_xz && e is Compression,
    {
        let text = match self.to_json() {
            Ok(text) => text,
            Err(e) => {
                return Err(e);
            },
        };
        final_payload(text.as_str().as_bytes(), use_xz)
    }
}

} // verus!
