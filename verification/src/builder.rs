//! What a build decides: which kind of target it is, which of its fields are
//! required, and what the built file holds and is called.
//!
//! Reading the prebuilt binary and the entry file, and writing the result,
//! is left to the caller.

use vstd::prelude::*;
use vstd::string::StringExecFns;
use crate::binary::{
    embed_outcome, embed_succeeds, payload_installed, sentinel_head, stored_bytes,
    valid_container, BinaryProcessor,
};
use crate::config::ResolvedTarget;
use crate::error::PatchError;
use crate::json_text::utf8_lossy_text;
use crate::payload::{spec_json, utf8_bytes, EmbeddedConfigData, PayloadModel, MODE_EMBEDDED_JS};
use crate::sentinel::sentinel_offset;

verus! {

/// The kinds of target that can be built.
#[derive(Debug, Clone, Copy, PartialEq, Eq, Structural)]
pub enum TargetKind {
    /// A shared library for Android with the script embedded.
    AndroidSo,
    /// An Xposed module.
    Xposed,
}

/// A field that a target must set to be built.
#[derive(Debug, Clone, Copy, PartialEq, Eq, Structural)]
pub enum RequiredField {
    Type,
    Platform,
    FridaVersion,
    Entry,
    PackageName,
    Keystore,
    Name,
}

impl RequiredField {
    /// The field's name in a configuration file.
    pub open spec fn spec_key(self) -> Seq<char> {
        match self {
            RequiredField::Type => "type"@,
            RequiredField::Platform => "platform"@,
            RequiredField::FridaVersion => "fridaVersion"@,
            RequiredField::Entry => "entry"@,
            RequiredField::PackageName => "packageName"@,
            RequiredField::Keystore => "keystore"@,
            RequiredField::Name => "name"@,
        }
    }

    /// The field's name in a configuration file.
    pub fn key(self) -> (key: &'static str)
        ensures
            key@ == self.spec_key(),
    {
        match self {
            RequiredField::Type => "type",
            RequiredField::Platform => "platform",
            RequiredField::FridaVersion => "fridaVersion",
            RequiredField::Entry => "entry",
            RequiredField::PackageName => "packageName",
            RequiredField::Keystore => "keystore",
            RequiredField::Name => "name",
        }
    }
}

/// Why a target cannot be built.
#[derive(Debug, Clone, PartialEq, Eq)]
pub enum BuildError {
    /// The target's type is none that can be built.
    UnsupportedTargetType(String),
    /// The target does not set a field that its type requires.
    MissingField(RequiredField),
    /// The prebuilt binary was refused.
    InvalidBinary(PatchError),
    /// The payload could not be embedded in the prebuilt binary.
    Embed(PatchError),
}

impl BuildError {
    /// The error as a line of text.
    pub open spec fn spec_message(&self) -> Seq<char> {
        match self {
            BuildError::UnsupportedTargetType(kind) => "Unsupported target type: "@ + kind@,
            BuildError::MissingField(field) => "Missing required field: "@ + field.spec_key(),
            BuildError::InvalidBinary(e) => e.spec_message(),
            BuildError::Embed(e) => e.spec_message(),
        }
    }

    /// The error as a line of text.
    pub fn message(&self) -> (text: String)
        ensures
            text@ == self.spec_message(),
    {
        match self {
            BuildError::UnsupportedTargetType(kind) => "Unsupported target type: ".to_owned().concat(
                kind.as_str(),
            ),
            BuildError::MissingField(field) => "Missing required field: ".to_owned().concat(
                field.key(),
            ),
            BuildError::InvalidBinary(e) => e.message(),
            BuildError::Embed(e) => e.message(),
        }
    }
}

/// What has to be at hand to build an `android-so` target.
#[derive(Debug, Clone)]
pub struct AndroidSoPlan {
    pub platform: String,
    pub frida_version: String,
    /// Path of the script to embed.
    pub entry: String,
    pub use_xz: bool,
    /// Path of a prebuilt binary to use in place of a downloaded one.
    pub override_prebuild_file: Option<String>,
}

/// What has to be at hand to build an `xposed` target.
#[derive(Debug, Clone)]
pub struct XposedPlan {
    pub platform: String,
    pub package_name: String,
    pub keystore: String,
    pub name: String,
}

/// A built file: its name and its content.
#[derive(Debug, Clone)]
pub struct BuiltFile {
    pub file_name: String,
    pub data: Vec<u8>,
}

/// The name of the file that a target is built into.
pub open spec fn spec_output_file_name(target_name: Seq<char>, platform: Seq<char>) -> Seq<char> {
    target_name + "-"@ + platform + ".so"@
}

/// The name of the file that a target is built into.
pub fn output_file_name(target_name: &str, platform: &str) -> (file_name: String)
    ensures
        file_name@ == spec_output_file_name(target_name@, platform@),
{
    target_name.to_owned().concat("-").concat(platform).concat(".so")
}

/// The kind of a target, by its `type`.
pub fn target_kind(target: &ResolvedTarget) -> (kind: Result<TargetKind, BuildError>)
    ensures
        match target.target_type {
            None => kind matches Err(e) && e == BuildError::MissingField(RequiredField::Type),
            Some(t) => {
                if t@ == "android-so"@ {
                    kind matches Ok(k) && k == TargetKind::AndroidSo
                } else if t@ == "xposed"@ {
                    kind matches Ok(k) && k == TargetKind::Xposed
                } else {
                    kind matches Err(BuildError::UnsupportedTargetType(other)) && other@ == t@
                }
            },
        },
{
    match &target.target_type {
        None => Err(BuildError::MissingField(RequiredField::Type)),
        Some(t) => {
            if *t == "android-so".to_owned() {
                Ok(TargetKind::AndroidSo)
            } else if *t == "xposed".to_owned() {
                Ok(TargetKind::Xposed)
            } else {
                Err(BuildError::UnsupportedTargetType(t.clone()))
            }
        },
    }
}

/// Takes from `target` what an `android-so` build needs. The platform, the
/// Frida version and the entry are required, and the first of them that is
/// missing, in this order, is the error.
pub fn plan_android_so(target: &ResolvedTarget) -> (plan: Result<AndroidSoPlan, BuildError>)
    ensures
        match plan {
            Ok(p) => {
                &&& target.platform.deep_view() == Some(p.platform@)
                &&& target.frida_version.deep_view() == Some(p.frida_version@)
                &&& target.entry.deep_view() == Some(p.entry@)
                &&& p.use_xz == target.xz
                &&& p.override_prebuild_file.deep_view()
                    == target.override_prebuild_file.deep_view()
            },
            Err(e) => {
                if target.platform is None {
                    e == BuildError::MissingField(RequiredField::Platform)
                } else if target.frida_version is None {
                    e == BuildError::MissingField(RequiredField::FridaVersion)
                } else {
                    target.entry is None && e == BuildError::MissingField(RequiredField::Entry)
                }
            },
        },
{
    let platform = match &target.platform {
        Some(platform) => platform.clone(),
        None => {
            return Err(BuildError::MissingField(RequiredField::Platform));
        },
    };
    let frida_version = match &target.frida_version {
        Some(frida_version) => frida_version.clone(),
        None => {
            return Err(BuildError::MissingField(RequiredField::FridaVersion));
        },
    };
    let entry = match &target.entry {
        Some(entry) => entry.clone(),
        None => {
            return Err(BuildError::MissingField(RequiredField::Entry));
        },
    };
    let override_prebuild_file = match &target.override_prebuild_file {
        Some(path) => Some(path.clone()),
        None => None,
    };
    Ok(AndroidSoPlan { platform, frida_version, entry, use_xz: target.xz, override_prebuild_file })
}

/// Takes from `target` what an `xposed` build needs. The platform, the
/// package name, the keystore and the name are required, and the first of
/// them that is missing, in this order, is the error.
pub fn plan_xposed(target: &ResolvedTarget) -> (plan: Result<XposedPlan, BuildError>)
    ensures
        match plan {
            Ok(p) => {
                &&& target.platform.deep_view() == Some(p.platform@)
                &&& target.package_name.deep_view() == Some(p.package_name@)
                &&& target.keystore.deep_view() == Some(p.keystore@)
                &&& target.name.deep_view() == Some(p.name@)
            },
            Err(e) => {
                if target.platform is None {
                    e == BuildError::MissingField(RequiredField::Platform)
                } else if target.package_name is None {
                    e == BuildError::MissingField(RequiredField::PackageName)
                } else if target.keystore is None {
                    e == BuildError::MissingField(RequiredField::Keystore)
                } else {
                    target.name is None && e == BuildError::MissingField(RequiredField::Name)
                }
            },
        },
{
    let platform = match &target.platform {
        Some(platform) => platform.clone(),
        None => {
            return Err(BuildError::MissingField(RequiredField::Platform));
        },
    };
    let package_name = match &target.package_name {
        Some(package_name) => package_name.clone(),
        None => {
            return Err(BuildError::MissingField(RequiredField::PackageName));
        },
    };
    let keystore = match &target.keystore {
        Some(keystore) => keystore.clone(),
        None => {
            return Err(BuildError::MissingField(RequiredField::Keystore));
        },
    };
    let name = match &target.name {
        Some(name) => name.clone(),
        None => {
            return Err(BuildError::MissingField(RequiredField::Name));
        },
    };
    Ok(XposedPlan { platform, package_name, keystore, name })
}

/// The record that an `android-so` build embeds: the entry's path and the
/// entry file's text.
pub open spec fn android_so_record(entry: Seq<char>, entry_data: Seq<u8>) -> PayloadModel {
    PayloadModel {
        mode: MODE_EMBEDDED_JS,
        js_filepath: Some(entry),
        js_content: Some(utf8_lossy_text(entry_data)),
    }
}

/// The bytes that an `android-so` build stores: the record's JSON text in
/// UTF-8, compressed where `use_xz` is set.
pub open spec fn android_so_payload(entry: Seq<char>, entry_data: Seq<u8>, use_xz: bool) -> Seq<
    u8,
> {
    stored_bytes(utf8_bytes(spec_json(android_so_record(entry, entry_data))), use_xz)
}

/// Builds an `android-so` target from the prebuilt binary and the content
/// of the entry file.
///
/// A prebuilt binary that is no container, or that has no sentinel, is
/// refused before anything is encoded. The built file holds the record's
/// serialized form, compressed where the plan says so, and its sentinel
/// describes it.
pub fn build_android_so(
    target_name: &str,
    plan: &AndroidSoPlan,
    prebuilt_data: Vec<u8>,
    entry_data: &[u8],
) -> (built: Result<BuiltFile, BuildError>)
    ensures
        !valid_container(prebuilt_data@) ==> (built matches Err(BuildError::InvalidBinary(e)) && e
            == PatchError::InvalidElf),
        valid_container(prebuilt_data@) && sentinel_offset(prebuilt_data@) is None ==> (
        built matches Err(BuildError::Embed(e)) && e == PatchError::SentinelNotFound),
        valid_container(prebuilt_data@) ==> (built matches Err(e) ==> e is Embed),
        built matches Ok(file) ==> file.file_name@ == spec_output_file_name(
            target_name@,
            plan.platform@,
        ),
        built is Ok ==> valid_container(prebuilt_data@) && embed_succeeds(
            prebuilt_data@,
            android_so_payload(plan.entry@, entry_data@, plan.use_xz),
            plan.use_xz,
        ),
        !plan.use_xz && valid_container(prebuilt_data@) && embed_succeeds(
            prebuilt_data@,
            android_so_payload(plan.entry@, entry_data@, false),
            false,
        ) ==> built is Ok,
        built matches Ok(file) ==> embed_outcome(
            prebuilt_data@,
            android_so_payload(plan.entry@, entry_data@, plan.use_xz),
            plan.use_xz,
        ) == Ok::<Seq<u8>, PatchError>(file.data@),
        built matches Ok(file) ==> payload_installed(
            file.data@,
            android_so_payload(plan.entry@, entry_data@, plan.use_xz),
            plan.use_xz,
        ),
        built matches Ok(file) ==> sentinel_head(file.data@) == sentinel_head(prebuilt_data@),
{
    let mut processor = match BinaryProcessor::new(prebuilt_data) {
        Ok(processor) => processor,
        Err(e) => {
            return Err(BuildError::InvalidBinary(e));
        },
    };
    if processor.find_embedded_config().is_none() {
        return Err(BuildError::Embed(PatchError::SentinelNotFound));
    }
    let record = EmbeddedConfigData::embedded_js(plan.entry.as_str(), entry_data);
    let stored = match record.encode(plan.use_xz) {
        Ok(stored) => stored,
        Err(e) => {
            return Err(BuildError::Embed(e));
        },
    };
    match processor.embed_payload(stored.as_slice(), plan.use_xz) {
        Ok(()) => {},
        Err(e) => {
            return Err(BuildError::Embed(e));
        },
    }
    let file_name = output_file_name(target_name, plan.platform.as_str());
    let file = BuiltFile { file_name, data: processor.into_data() };
    Ok(file)
}

} // verus!
