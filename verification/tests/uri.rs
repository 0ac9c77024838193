use org_cli::uri::{normalize_for_tool, validate_outline_path, OutlineUriError};

#[test]
fn normalize_bare_unchanged() {
    assert_eq!(normalize_for_tool("foo"), "foo");
}

#[test]
fn normalize_strips_org_prefix() {
    assert_eq!(normalize_for_tool("org://abc"), "abc");
}

#[test]
fn normalize_strips_org_prefix_with_path() {
    assert_eq!(normalize_for_tool("org://file#H1/H2"), "file#H1/H2");
}

#[test]
fn validate_outline_absolute_path_ok() {
    assert!(validate_outline_path("/tmp/x.org").is_ok());
}

#[test]
fn validate_outline_org_uri_rejected() {
    let err = validate_outline_path("org://abc").unwrap_err();
    assert!(matches!(err, OutlineUriError::OrgUriNotAllowed));
}

#[test]
fn normalize_strips_only_one_prefix() {
    assert_eq!(normalize_for_tool("org://org://x"), "org://x");
}

#[test]
fn normalize_empty_and_prefix_only() {
    assert_eq!(normalize_for_tool(""), "");
    assert_eq!(normalize_for_tool("org://"), "");
    assert_eq!(normalize_for_tool("org:/x"), "org:/x");
}

#[test]
fn normalize_keeps_non_ascii() {
    assert_eq!(normalize_for_tool("org://überschrift"), "überschrift");
}

#[test]
fn validate_outline_passes_input_through() {
    assert_eq!(validate_outline_path("notes.org").unwrap(), "notes.org");
    assert_eq!(
        validate_outline_path("org://x").unwrap_err().message(),
        "org outline expects a file path, not an org:// URI"
    );
}
