use third_party_notices::distributed_file::{parent_dir, DistributedFile, Status};
use third_party_notices::license::{LicenseBody, LicenseContent, LicenseDefinition};
use third_party_notices::notice::{
    ThirdPartyNotice, ThirdPartyNoticeItem, ThirdPartyNoticePackage,
};

fn single_item_notice() -> ThirdPartyNotice {
    let item = ThirdPartyNoticeItem::new(
        "Acme.Widget".to_string(),
        "1.2.3".to_string(),
        "https://example.invalid/widget".to_string(),
        None,
        None,
    );
    let mut pkg = ThirdPartyNoticePackage::new("unit".to_string());
    pkg.add_item(item);
    let mut notice = ThirdPartyNotice::new();
    notice.add_item(pkg);
    notice
}

#[test]
fn single_item_document() {
    let doc = single_item_notice().generate_notice("NOTICE.md");
    let expected = "# Third Party Notices\n\n\
        ## Acme.Widget\n\n\
        **Version :** **1.2.3**\n\n\
        **License :** Not specified\n\n\
        **Source:** [Acme.Widget](https://example.invalid/widget)\n\n";
    assert_eq!(doc, expected);
    assert!(!doc.contains("Included files"));
}

#[test]
fn rendering_is_deterministic_and_idempotent() {
    let notice = single_item_notice();
    let a = notice.generate_notice("out/NOTICE.md");
    let b = notice.generate_notice("out/NOTICE-copy.md");
    assert_eq!(a, b);
    let c = notice.generate_notice("out/NOTICE.md");
    assert_eq!(a, c);
}

#[test]
fn absolute_backslash_paths_render_relative_with_forward_slashes() {
    let mut item = ThirdPartyNoticeItem::new(
        "Acme.Widget".to_string(),
        "1.2.3".to_string(),
        "https://example.invalid/widget".to_string(),
        None,
        None,
    );
    item.add_file(DistributedFile::new(
        "C:\\out\\staging\\api.h".to_string(),
        Status::Unmodified,
    ));
    let mut pkg = ThirdPartyNoticePackage::new("unit".to_string());
    pkg.add_item(item);
    let mut notice = ThirdPartyNotice::new();
    notice.add_item(pkg);
    let doc = notice.generate_notice("C:\\out\\NOTICE.md");
    assert!(doc.contains("### Included files from the package.\n\n"));
    assert!(doc.contains("- staging/api.h unmodified\n"));
    assert!(!doc.contains('\\'));
}

#[test]
fn multiple_packages_get_sub_headings() {
    let mut notice = ThirdPartyNotice::new();
    for name in ["alpha", "beta"] {
        let mut pkg = ThirdPartyNoticePackage::new(name.to_string());
        pkg.add_item(ThirdPartyNoticeItem::new(
            format!("{}-dep", name),
            "1.0".to_string(),
            "https://example.invalid".to_string(),
            None,
            None,
        ));
        notice.add_item(pkg);
    }
    let doc = notice.generate_notice("NOTICE.md");
    assert!(doc.contains("## alpha\n\n"));
    assert!(doc.contains("## beta\n\n"));
    assert!(doc.contains("### alpha-dep\n\n"));
    assert!(doc.contains("### beta-dep\n\n"));
}

#[test]
fn license_lines_per_content_kind() {
    let cases: Vec<(Option<LicenseContent>, &str)> = vec![
        (
            Some(LicenseContent::Body(LicenseBody::Generated(LicenseDefinition::new(
                "MIT OR Apache-2.0".to_string(),
                Some(2021),
                "Acme".to_string(),
            )))),
            "**License :** MIT OR Apache-2.0\n\n",
        ),
        (
            Some(LicenseContent::Body(LicenseBody::Literal("text".to_string()))),
            "**License :** See the LICENSE file for details.\n\n",
        ),
        (
            Some(LicenseContent::URL("https://example.invalid/l".to_string())),
            "**License :** See the [license](https://example.invalid/l) for details.\n\n",
        ),
        (None, "**License :** Not specified\n\n"),
    ];
    for (license, expected) in cases {
        let item = ThirdPartyNoticeItem::new(
            "dep".to_string(),
            "1.0".to_string(),
            "https://example.invalid".to_string(),
            None,
            license,
        );
        let mut pkg = ThirdPartyNoticePackage::new("unit".to_string());
        pkg.add_item(item);
        let mut notice = ThirdPartyNotice::new();
        notice.add_item(pkg);
        let doc = notice.generate_notice("NOTICE.md");
        assert!(doc.contains(expected), "missing {:?} in {:?}", expected, doc);
    }
}

#[test]
fn copyright_renders_as_block_quote() {
    let item = ThirdPartyNoticeItem::new(
        "dep".to_string(),
        "1.0".to_string(),
        "https://example.invalid".to_string(),
        Some("Copyright 2021 Acme".to_string()),
        None,
    );
    let mut pkg = ThirdPartyNoticePackage::new("unit".to_string());
    pkg.add_item(item);
    let mut notice = ThirdPartyNotice::new();
    notice.add_item(pkg);
    let doc = notice.generate_notice("NOTICE.md");
    assert!(doc.contains("**copyright:**\n\n> Copyright 2021 Acme\n\n"));
}

#[test]
fn item_accessors_and_collection_methods() {
    let mut item = ThirdPartyNoticeItem::new(
        "dep".to_string(),
        "1.0".to_string(),
        "https://example.invalid".to_string(),
        Some("c".to_string()),
        None,
    );
    assert_eq!(item.name(), "dep");
    assert_eq!(item.version(), "1.0");
    assert_eq!(item.link(), "https://example.invalid");
    assert_eq!(item.copyright(), Some("c"));
    assert!(item.license().is_none());
    assert!(item.is_empty());
    item.add_file(DistributedFile::new("a".to_string(), Status::Modified));
    item.add_file(DistributedFile::new("b".to_string(), Status::PackageMetadataGenerated));
    assert_eq!(item.len(), 2);
    assert!(!item.is_empty());
    assert_eq!(item.files()[0].path, "a");
    assert_eq!(item.iter().len(), 2);
    assert_eq!(item.get(1).unwrap().path, "b");
    assert!(item.get(2).is_none());
    item.files_mut().push(DistributedFile::new("c".to_string(), Status::Unmodified));
    assert_eq!(item.len(), 3);
    for f in item.iter_mut().iter_mut() {
        f.status = Status::Modified;
    }
    assert_eq!(item.files()[2].status, Status::Modified);
    if let Some(f) = item.get_mut(1) {
        f.status = Status::Unmodified;
    }
    assert_eq!(item.files()[1].status, Status::Unmodified);
    assert!(item.get_mut(99).is_none());
    let removed = item.remove(0);
    assert_eq!(removed.path, "a");
    assert_eq!(item.len(), 2);
    assert_eq!(item.files()[0].path, "b");
    item.clear();
    assert!(item.is_empty());
}

#[test]
fn status_text() {
    assert_eq!(Status::Modified.as_text(), "modified");
    assert_eq!(Status::Unmodified.as_text(), "unmodified");
    assert_eq!(
        Status::PackageMetadataGenerated.as_text(),
        "generated from package metadata"
    );
}

#[test]
fn parent_dir_of_paths() {
    assert_eq!(parent_dir("NOTICE.md"), "");
    assert_eq!(parent_dir("out/NOTICE.md"), "out");
    assert_eq!(parent_dir("C:\\out\\NOTICE.md"), "C:/out");
    assert_eq!(parent_dir("/a/b/c.md"), "/a/b");
}

#[test]
fn package_accessors() {
    let mut pkg = ThirdPartyNoticePackage::new("unit".to_string());
    assert_eq!(pkg.name(), "unit");
    assert!(pkg.items().is_empty());
    pkg.add_item(ThirdPartyNoticeItem::new(
        "dep".to_string(),
        "1.0".to_string(),
        "l".to_string(),
        None,
        None,
    ));
    assert_eq!(pkg.items().len(), 1);
    let mut notice = ThirdPartyNotice::new();
    notice.add_item(pkg);
    assert_eq!(notice.packages().len(), 1);
    assert_eq!(notice.packages()[0].name(), "unit");
}
