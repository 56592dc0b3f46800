use fripack::builder::{
    build_android_so, output_file_name, plan_android_so, plan_xposed, target_kind, AndroidSoPlan,
    BuildError, RequiredField, TargetKind,
};
use fripack::config::ResolvedTarget;
use fripack::error::PatchError;
use fripack::sentinel::{find_sentinel, EmbeddedConfig};

fn text(value: &str) -> Option<String> {
    Some(value.to_string())
}

fn target(kind: Option<&str>) -> ResolvedTarget {
    ResolvedTarget { target_type: kind.map(|k| k.to_string()), ..ResolvedTarget::default() }
}

fn full_target() -> ResolvedTarget {
    ResolvedTarget {
        target_type: text("android-so"),
        platform: text("arm64-v8a"),
        version: text("1.0.0"),
        frida_version: text("17.5.1"),
        mode: text("embedjs"),
        entry: text("main.js"),
        xz: true,
        override_prebuild_file: text("./lib.so"),
        package_name: text("com.example"),
        keystore: text("debug.keystore"),
        name: text("Module"),
        icon: None,
    }
}

fn object_with_sentinel() -> Vec<u8> {
    let mut obj = object::write::Object::new(
        object::BinaryFormat::Elf,
        object::Architecture::Aarch64,
        object::Endianness::Little,
    );
    let section = obj.add_section(Vec::new(), b".data".to_vec(), object::SectionKind::Data);
    let mut content = vec![0u8; 16];
    content.extend_from_slice(&EmbeddedConfig::default().as_bytes());
    obj.append_section_data(section, &content, 1);
    obj.write().unwrap()
}

#[test]
fn kind_follows_the_type() {
    assert_eq!(target_kind(&target(Some("android-so"))), Ok(TargetKind::AndroidSo));
    assert_eq!(target_kind(&target(Some("xposed"))), Ok(TargetKind::Xposed));
    assert_eq!(
        target_kind(&target(Some("ios"))),
        Err(BuildError::UnsupportedTargetType("ios".to_string()))
    );
    assert_eq!(
        target_kind(&target(Some("Android-So"))),
        Err(BuildError::UnsupportedTargetType("Android-So".to_string()))
    );
    assert_eq!(
        target_kind(&target(Some(""))),
        Err(BuildError::UnsupportedTargetType(String::new()))
    );
    assert_eq!(target_kind(&target(None)), Err(BuildError::MissingField(RequiredField::Type)));
}

#[test]
fn android_so_plan_takes_the_fields() {
    let plan = plan_android_so(&full_target()).unwrap();
    assert_eq!(plan.platform, "arm64-v8a");
    assert_eq!(plan.frida_version, "17.5.1");
    assert_eq!(plan.entry, "main.js");
    assert!(plan.use_xz);
    assert_eq!(plan.override_prebuild_file, text("./lib.so"));
    let plan = plan_android_so(&ResolvedTarget {
        xz: false,
        override_prebuild_file: None,
        ..full_target()
    })
    .unwrap();
    assert!(!plan.use_xz);
    assert_eq!(plan.override_prebuild_file, None);
}

#[test]
fn android_so_plan_names_the_first_missing_field() {
    let missing = |t: ResolvedTarget| plan_android_so(&t).unwrap_err();
    assert_eq!(
        missing(ResolvedTarget::default()),
        BuildError::MissingField(RequiredField::Platform)
    );
    assert_eq!(
        missing(ResolvedTarget { platform: None, ..full_target() }),
        BuildError::MissingField(RequiredField::Platform)
    );
    assert_eq!(
        missing(ResolvedTarget { frida_version: None, entry: None, ..full_target() }),
        BuildError::MissingField(RequiredField::FridaVersion)
    );
    assert_eq!(
        missing(ResolvedTarget { entry: None, ..full_target() }),
        BuildError::MissingField(RequiredField::Entry)
    );
}

#[test]
fn xposed_plan_names_the_first_missing_field() {
    let plan = plan_xposed(&full_target()).unwrap();
    assert_eq!(plan.platform, "arm64-v8a");
    assert_eq!(plan.package_name, "com.example");
    assert_eq!(plan.keystore, "debug.keystore");
    assert_eq!(plan.name, "Module");
    let missing = |t: ResolvedTarget| plan_xposed(&t).unwrap_err();
    assert_eq!(
        missing(ResolvedTarget { platform: None, name: None, ..full_target() }),
        BuildError::MissingField(RequiredField::Platform)
    );
    assert_eq!(
        missing(ResolvedTarget { package_name: None, keystore: None, ..full_target() }),
        BuildError::MissingField(RequiredField::PackageName)
    );
    assert_eq!(
        missing(ResolvedTarget { keystore: None, ..full_target() }),
        BuildError::MissingField(RequiredField::Keystore)
    );
    assert_eq!(
        missing(ResolvedTarget { name: None, ..full_target() }),
        BuildError::MissingField(RequiredField::Name)
    );
}

#[test]
fn messages_name_the_field_as_the_configuration_does() {
    let message = |f| BuildError::MissingField(f).message();
    assert_eq!(message(RequiredField::Type), "Missing required field: type");
    assert_eq!(message(RequiredField::Platform), "Missing required field: platform");
    assert_eq!(message(RequiredField::FridaVersion), "Missing required field: fridaVersion");
    assert_eq!(message(RequiredField::Entry), "Missing required field: entry");
    assert_eq!(message(RequiredField::PackageName), "Missing required field: packageName");
    assert_eq!(message(RequiredField::Keystore), "Missing required field: keystore");
    assert_eq!(message(RequiredField::Name), "Missing required field: name");
    assert_eq!(
        BuildError::UnsupportedTargetType("ios".to_string()).message(),
        "Unsupported target type: ios"
    );
    assert_eq!(BuildError::InvalidBinary(PatchError::InvalidElf).message(), "Invalid ELF binary");
    assert_eq!(
        BuildError::Embed(PatchError::SentinelNotFound).message(),
        "Cannot found embedded config"
    );
}

#[test]
fn output_is_named_after_target_and_platform() {
    assert_eq!(output_file_name("example-android-so", "arm64-v8a"), "example-android-so-arm64-v8a.so");
    assert_eq!(output_file_name("", ""), "-.so");
}

fn plan(use_xz: bool) -> AndroidSoPlan {
    AndroidSoPlan {
        platform: "arm64-v8a".to_string(),
        frida_version: "17.5.1".to_string(),
        entry: "main.js".to_string(),
        use_xz,
        override_prebuild_file: None,
    }
}

#[test]
fn built_file_holds_the_serialized_record() {
    let built = build_android_so("demo", &plan(false), object_with_sentinel(), b"console.log(1)")
        .unwrap();
    assert_eq!(built.file_name, "demo-arm64-v8a.so");
    let at = find_sentinel(&built.data).unwrap();
    let config = EmbeddedConfig::read_at(&built.data, at).unwrap();
    let expected = "{\"mode\":1,\"js_filepath\":\"main.js\",\"js_content\":\"console.log(1)\"}";
    assert_eq!(config.data_size as usize, expected.len());
    assert!(!config.data_xz);
    let start = (at as i64 + config.data_offset as i64) as usize;
    assert_eq!(&built.data[start..start + expected.len()], expected.as_bytes());
}

#[test]
fn built_file_holds_the_compressed_record() {
    let built =
        build_android_so("demo", &plan(true), object_with_sentinel(), b"console.log(1)").unwrap();
    let at = find_sentinel(&built.data).unwrap();
    let config = EmbeddedConfig::read_at(&built.data, at).unwrap();
    assert!(config.data_xz);
    let start = (at as i64 + config.data_offset as i64) as usize;
    let stored = &built.data[start..start + config.data_size as usize];
    let mut plain = Vec::new();
    let mut decoder = xz2::read::XzDecoder::new(stored);
    std::io::Read::read_to_end(&mut decoder, &mut plain).unwrap();
    assert_eq!(
        String::from_utf8(plain).unwrap(),
        "{\"mode\":1,\"js_filepath\":\"main.js\",\"js_content\":\"console.log(1)\"}"
    );
}

#[test]
fn build_refuses_what_is_no_binary() {
    let err = build_android_so("demo", &plan(false), b"not an elf".to_vec(), b"x").unwrap_err();
    assert_eq!(err, BuildError::InvalidBinary(PatchError::InvalidElf));
}

#[test]
fn build_refuses_a_binary_without_sentinel() {
    let mut data = vec![0u8; 200];
    data[..4].copy_from_slice(b"\x7fELF");
    let err = build_android_so("demo", &plan(true), data, b"x").unwrap_err();
    assert_eq!(err, BuildError::Embed(PatchError::SentinelNotFound));
}
