use emmet_bootstrap::Arch;
use emmet_bootstrap::JsonMember;
use emmet_bootstrap::JsonValue;
use emmet_bootstrap::Level;
use emmet_bootstrap::Os;
use emmet_bootstrap::config::resolve_override;
use emmet_bootstrap::location::document_selector;
use emmet_bootstrap::location::urn_text;
use emmet_bootstrap::location::with_exe_suffix;
use emmet_bootstrap::notify::failure_notice;
use emmet_bootstrap::notify::install_failed_notice;
use emmet_bootstrap::notify::installed_notice;
use emmet_bootstrap::notify::tool_missing_notice;
use emmet_bootstrap::pipeline::is_initialize_method;
use emmet_bootstrap::platform::arch_of;
use emmet_bootstrap::platform::os_of;

fn obj(pairs: Vec<(&str, JsonValue)>) -> JsonValue {
    JsonValue::Object(
        pairs
            .into_iter()
            .map(|(k, v)| JsonMember { key: k.to_string(), value: v })
            .collect(),
    )
}

fn s(text: &str) -> JsonValue {
    JsonValue::Str(text.to_string())
}

#[test]
fn no_options_means_no_override() {
    assert!(resolve_override(&None).is_none());
}

#[test]
fn options_without_lsp_section_mean_no_override() {
    let options = Some(obj(vec![("other", s("x"))]));
    assert!(resolve_override(&options).is_none());
}

#[test]
fn non_object_options_mean_no_override() {
    let options = Some(JsonValue::Array(vec![s("lsp")]));
    assert!(resolve_override(&options).is_none());
}

#[test]
fn empty_server_path_means_no_override() {
    let options = Some(obj(vec![("lsp", obj(vec![("serverPath", s(""))]))]));
    assert!(resolve_override(&options).is_none());
}

#[test]
fn non_string_server_path_means_no_override() {
    let options = Some(obj(vec![("lsp", obj(vec![("serverPath", JsonValue::Number)]))]));
    assert!(resolve_override(&options).is_none());
}

#[test]
fn server_path_alone_gives_an_override_with_no_args() {
    let options = Some(obj(vec![("lsp", obj(vec![("serverPath", s("/usr/bin/em"))]))]));
    let ov = resolve_override(&options).expect("an override");
    assert_eq!(ov.path, "/usr/bin/em");
    assert!(ov.args.is_empty());
}

#[test]
fn non_array_server_args_are_ignored() {
    let options = Some(obj(vec![(
        "lsp",
        obj(vec![("serverPath", s("p")), ("serverArgs", s("--not-an-array"))]),
    )]));
    let ov = resolve_override(&options).expect("an override");
    assert!(ov.args.is_empty());
}

#[test]
fn string_args_are_kept_in_order_and_others_skipped() {
    let args = JsonValue::Array(vec![
        JsonValue::Null,
        s("--first"),
        JsonValue::Number,
        s("--second"),
        JsonValue::Bool(false),
        JsonValue::Array(vec![s("nested")]),
        s("--third"),
    ]);
    let options = Some(obj(vec![("lsp", obj(vec![("serverPath", s("p")), ("serverArgs", args)]))]));
    let ov = resolve_override(&options).expect("an override");
    assert_eq!(
        ov.args,
        vec!["--first".to_string(), "--second".to_string(), "--third".to_string()]
    );
}

#[test]
fn get_finds_the_first_member_with_the_key() {
    let v = obj(vec![("a", s("one")), ("b", s("two"))]);
    match v.get("b") {
        Some(JsonValue::Str(t)) => assert_eq!(t, "two"),
        _ => panic!("expected the b member"),
    }
    assert!(v.get("missing").is_none());
    assert!(s("leaf").get("a").is_none());
}

#[test]
fn as_str_and_as_array_expose_only_their_kind() {
    assert_eq!(s("x").as_str(), Some("x"));
    assert!(JsonValue::Number.as_str().is_none());
    let arr = JsonValue::Array(vec![s("e")]);
    assert_eq!(arr.as_array().map(|items| items.len()), Some(1));
    assert!(s("x").as_array().is_none());
}

#[test]
fn architecture_replies_classify_exactly() {
    assert_eq!(arch_of(&Some("x86_64".to_string())), Arch::X86_64);
    assert_eq!(arch_of(&Some("aarch64".to_string())), Arch::Aarch64);
    assert_eq!(arch_of(&Some("riscv64".to_string())), Arch::Other);
    assert_eq!(arch_of(&Some("X86_64".to_string())), Arch::Other);
    assert_eq!(arch_of(&None), Arch::Other);
}

#[test]
fn operating_system_replies_classify_exactly() {
    assert_eq!(os_of(&Some("macos".to_string())), Os::Macos);
    assert_eq!(os_of(&Some("linux".to_string())), Os::Linux);
    assert_eq!(os_of(&Some("windows".to_string())), Os::Windows);
    assert_eq!(os_of(&Some("freebsd".to_string())), Os::Other);
    assert_eq!(os_of(&None), Os::Other);
}

#[test]
fn the_document_selector_is_the_fixed_html_jsx_tsx_filter() {
    let selector = document_selector();
    assert_eq!(selector.len(), 1);
    assert_eq!(selector[0].language.as_deref(), Some("html"));
    assert_eq!(selector[0].pattern.as_deref(), Some("**/*.{jsx,tsx}"));
    assert!(selector[0].scheme.is_none());
}

#[test]
fn urn_text_prefixes_the_path() {
    assert_eq!(urn_text("a/b c"), "urn:a/b c");
    assert_eq!(urn_text(""), "urn:");
}

#[test]
fn the_executable_suffix_applies_on_windows_only() {
    assert_eq!(with_exe_suffix("emmet", Os::Windows), "emmet.exe");
    assert_eq!(with_exe_suffix("emmet", Os::Linux), "emmet");
    assert_eq!(with_exe_suffix("emmet", Os::Macos), "emmet");
    assert_eq!(with_exe_suffix("emmet", Os::Other), "emmet");
}

#[test]
fn notice_texts_are_exact() {
    let tool = tool_missing_notice();
    assert_eq!(tool.level, Level::Error);
    assert_eq!(tool.text, "Could not find npm. Npm must be available to download emmet-ls.");
    let failed = install_failed_notice();
    assert_eq!(failed.level, Level::Error);
    assert_eq!(failed.text, "Emmet-ls failed to install.");
    let done = installed_notice();
    assert_eq!(done.level, Level::Info);
    assert_eq!(done.text, "Emmet-ls installed successfully!");
    let generic = failure_notice("boom");
    assert_eq!(generic.level, Level::Error);
    assert_eq!(generic.text, "plugin returned with error: boom");
}

#[test]
fn only_the_initialize_method_is_answered() {
    assert!(is_initialize_method("initialize"));
    assert!(!is_initialize_method("initialized"));
    assert!(!is_initialize_method("shutdown"));
    assert!(!is_initialize_method(""));
}
