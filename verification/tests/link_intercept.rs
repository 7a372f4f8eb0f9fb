use shell_bridge::links::build_blob_save_request;
use shell_bridge::links::classify_activation;
use shell_bridge::links::prevents_default;
use shell_bridge::links::resolve_file_name;
use shell_bridge::links::Activation;
use shell_bridge::links::Anchor;

fn anchor(role: Option<&str>, target: &str, href: &str, download: Option<&str>) -> Anchor {
    Anchor {
        role: role.map(String::from),
        target: String::from(target),
        href: String::from(href),
        download: download.map(String::from),
    }
}

#[test]
fn external_link_is_opened_and_default_prevented() {
    let a = anchor(Some("link"), "_blank", "https://example.com/x", None);
    let act = classify_activation(&a);
    match &act {
        Activation::OpenExternal { request } => {
            assert_eq!(request.target, "https://example.com/x");
        }
        other => panic!("expected an external open, got {:?}", other),
    }
    assert!(prevents_default(&act));
}

#[test]
fn blob_link_is_fetched_for_saving() {
    let a = anchor(
        Some("link"),
        "_blank",
        "blob:https://example.com/1234",
        Some("report"),
    );
    let act = classify_activation(&a);
    match &act {
        Activation::FetchAndSave { address } => {
            assert_eq!(address, "blob:https://example.com/1234");
        }
        other => panic!("expected a fetch-and-save, got {:?}", other),
    }
    assert!(prevents_default(&act));
}

#[test]
fn blob_save_request_keeps_name_and_bytes() {
    let bytes = vec![0x25u8, 0x50, 0x44, 0x46];
    let req = build_blob_save_request(
        &Some(String::from("report")),
        "application/pdf",
        bytes.clone(),
    );
    assert_eq!(req.file_name, "report.pdf");
    assert_eq!(req.file_bytes, bytes);
}

#[test]
fn unqualified_anchors_pass_through() {
    let cases = vec![
        anchor(None, "_blank", "https://example.com/x", None),
        anchor(Some("button"), "_blank", "https://example.com/x", None),
        anchor(Some("link"), "_self", "https://example.com/x", None),
        anchor(Some("link"), "", "https://example.com/x", None),
        anchor(None, "", "blob:https://example.com/1", Some("report")),
    ];
    for a in cases {
        let act = classify_activation(&a);
        assert_eq!(act, Activation::PassThrough);
        assert!(!prevents_default(&act));
    }
}

#[test]
fn file_name_defaults_and_gains_extension() {
    assert_eq!(resolve_file_name(&None, "application/pdf"), "pobrany_plik.pdf");
    assert_eq!(resolve_file_name(&Some(String::from("")), "application/pdf"), "pobrany_plik.pdf");
    assert_eq!(resolve_file_name(&Some(String::from("report")), "application/pdf"), "report.pdf");
}

#[test]
fn file_name_with_extension_is_kept() {
    assert_eq!(resolve_file_name(&Some(String::from("notes.txt")), "application/pdf"), "notes.txt");
    assert_eq!(resolve_file_name(&Some(String::from("a.b.c")), "image/png"), "a.b.c");
}

#[test]
fn media_type_without_subtype_adds_nothing() {
    assert_eq!(resolve_file_name(&Some(String::from("report")), "octet"), "report");
    assert_eq!(resolve_file_name(&Some(String::from("report")), "application/"), "report");
    assert_eq!(resolve_file_name(&None, ""), "pobrany_plik");
}

#[test]
fn media_subtype_runs_to_next_separator() {
    assert_eq!(resolve_file_name(&None, "image/svg+xml"), "pobrany_plik.svg+xml");
    assert_eq!(resolve_file_name(&Some(String::from("pic")), "a/b/c"), "pic.b");
}
