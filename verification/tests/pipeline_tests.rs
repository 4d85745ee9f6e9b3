use third_party_notices::distributed_file::{DistributedFile, Status};
use third_party_notices::license::{
    resolve_license, LicenseBody, LicenseContent, LicenseResolution,
};
use third_party_notices::notice::{
    ThirdPartyNotice, ThirdPartyNoticeItem, ThirdPartyNoticePackage,
};
use third_party_notices::nuspec::Package;

#[test]
fn end_to_end_manifest_to_rendered_notice() {
    let doc = "<package><metadata>\
        <id>Acme.Widget</id><version>1.2.3</version><authors>Acme</authors>\
        <description>A widget.</description>\
        <copyright>Copyright 2021 Acme</copyright>\
        <license type=\"expression\">MIT</license>\
        </metadata></package>";
    let p = Package::from_reader(doc).unwrap();
    let m = &p.metadata;
    assert_eq!(m.id, "Acme.Widget");
    assert!(m.owners.is_none());

    let def = match resolve_license(m).unwrap() {
        LicenseResolution::Resolved(Some(LicenseContent::Body(LicenseBody::Generated(d)))) => d,
        other => panic!("expected a generated body, got {:?}", other),
    };
    assert_eq!(def.expression, "MIT");
    assert_eq!(def.year, Some(2021));
    assert_eq!(def.holders, "Acme");

    let bodies = def.generate_body();
    assert_eq!(bodies.len(), 1);
    assert!(bodies[0].contains("Copyright (c) 2021 Acme"));
    assert!(!bodies[0].contains("<year>"));
    assert!(!bodies[0].contains("<copyright holders>"));

    let mut item = ThirdPartyNoticeItem::new(
        m.id.clone(),
        m.version.clone(),
        "https://example.invalid/widget".to_string(),
        m.copyright.clone(),
        Some(LicenseContent::Body(LicenseBody::Generated(def))),
    );
    item.add_file(DistributedFile::new(
        "out/staging/LICENSE.txt".to_string(),
        Status::PackageMetadataGenerated,
    ));
    let mut pkg = ThirdPartyNoticePackage::new("unit".to_string());
    pkg.add_item(item);
    let mut notice = ThirdPartyNotice::new();
    notice.add_item(pkg);

    let rendered = notice.generate_notice("out/NOTICE.md");
    assert!(rendered.starts_with("# Third Party Notices\n\n"));
    assert!(rendered.contains("## Acme.Widget\n\n"));
    assert!(rendered.contains("**Version :** **1.2.3**\n\n"));
    assert!(rendered.contains("**License :** MIT\n\n"));
    assert!(rendered.contains("- staging/LICENSE.txt generated from package metadata\n"));
    assert!(rendered.contains("**copyright:**\n\n> Copyright 2021 Acme\n\n"));
}

#[test]
fn rerunning_the_pipeline_reproduces_the_document() {
    let doc = "<package><metadata>\
        <id>Acme.Widget</id><version>1.2.3</version><authors>Acme</authors>\
        <description>A widget.</description>\
        <copyright>Copyright 2021 Acme</copyright>\
        <license type=\"expression\">MIT</license>\
        </metadata></package>";
    let render_once = || {
        let p = Package::from_reader(doc).unwrap();
        let license = match resolve_license(&p.metadata).unwrap() {
            LicenseResolution::Resolved(content) => content,
            LicenseResolution::NeedsFile(_) => None,
        };
        let item = ThirdPartyNoticeItem::new(
            p.metadata.id.clone(),
            p.metadata.version.clone(),
            "https://example.invalid/widget".to_string(),
            p.metadata.copyright.clone(),
            license,
        );
        let mut pkg = ThirdPartyNoticePackage::new("unit".to_string());
        pkg.add_item(item);
        let mut notice = ThirdPartyNotice::new();
        notice.add_item(pkg);
        notice.generate_notice("out/NOTICE.md")
    };
    assert_eq!(render_once(), render_once());
}
