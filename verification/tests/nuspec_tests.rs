use third_party_notices::nuspec::{LicenseType, Package, ParseError};

const FULL_DOC: &str = "<?xml version=\"1.0\"?>\n\
<package xmlns=\"http://schemas.microsoft.com/packaging/2010/07/nuspec.xsd\">\n\
  <metadata minClientVersion=\"2.12\">\n\
    <id>Acme.Widget</id>\n\
    <version>1.2.3</version>\n\
    <authors>Acme</authors>\n\
    <owners>Acme Holdings</owners>\n\
    <description>A widget &amp; more.</description>\n\
    <copyright>Copyright 2021 Acme</copyright>\n\
    <readme>docs\\README.md</readme>\n\
    <tags>native widget</tags>\n\
    <projectUrl>https://example.invalid/widget</projectUrl>\n\
    <licenseUrl>https://example.invalid/license</licenseUrl>\n\
    <license type=\"expression\">MIT</license>\n\
    <requireLicenseAcceptance>false</requireLicenseAcceptance>\n\
  </metadata>\n\
</package>\n";

#[test]
fn parse_full_document() {
    let p = Package::from_reader(FULL_DOC).unwrap();
    let m = &p.metadata;
    assert_eq!(m.id, "Acme.Widget");
    assert_eq!(m.version, "1.2.3");
    assert_eq!(m.authors, "Acme");
    assert_eq!(m.owners.as_deref(), Some("Acme Holdings"));
    assert_eq!(m.description, "A widget & more.");
    assert_eq!(m.copyright.as_deref(), Some("Copyright 2021 Acme"));
    assert_eq!(m.readme.as_deref(), Some("docs\\README.md"));
    assert_eq!(m.tags.as_deref(), Some("native widget"));
    assert_eq!(m.project_url.as_deref(), Some("https://example.invalid/widget"));
    assert_eq!(m.license_url.as_deref(), Some("https://example.invalid/license"));
    let l = m.license.as_ref().unwrap();
    assert_eq!(l.kind, LicenseType::Expression);
    assert_eq!(l.value, "MIT");
    assert_eq!(m.require_license_acceptance, Some(false));
    assert!(m.dependencies.is_none());
}

#[test]
fn absent_optionals_are_none() {
    let doc = "<package><metadata>\
        <id>A</id><version>1.0</version><authors>B</authors>\
        <description>D</description>\
        </metadata></package>";
    let p = Package::from_reader(doc).unwrap();
    let m = &p.metadata;
    assert!(m.owners.is_none());
    assert!(m.readme.is_none());
    assert!(m.copyright.is_none());
    assert!(m.license.is_none());
    assert!(m.license_url.is_none());
    assert!(m.require_license_acceptance.is_none());
    assert!(m.tags.is_none());
}

#[test]
fn missing_required_field_is_fatal() {
    let doc = "<package><metadata>\
        <version>1.0</version><authors>B</authors><description>D</description>\
        </metadata></package>";
    assert_eq!(Package::from_reader(doc).unwrap_err(), ParseError::MissingField);
    let doc2 = "<package><metadata>\
        <id>A</id><version>1.0</version><authors>B</authors>\
        </metadata></package>";
    assert_eq!(Package::from_reader(doc2).unwrap_err(), ParseError::MissingField);
}

#[test]
fn document_without_envelope_is_malformed() {
    assert_eq!(
        Package::from_reader("<package></package>").unwrap_err(),
        ParseError::MalformedDocument
    );
    assert_eq!(
        Package::from_reader("<package><metadata><id>A</id>").unwrap_err(),
        ParseError::MalformedDocument
    );
}

#[test]
fn unknown_license_type_is_malformed() {
    let doc = "<package><metadata>\
        <id>A</id><version>1.0</version><authors>B</authors><description>D</description>\
        <license type=\"weird\">MIT</license>\
        </metadata></package>";
    assert_eq!(Package::from_reader(doc).unwrap_err(), ParseError::MalformedDocument);
}

#[test]
fn file_license_descriptor() {
    let doc = "<package><metadata>\
        <id>A</id><version>1.0</version><authors>B</authors><description>D</description>\
        <license type=\"file\">LICENSE.txt</license>\
        </metadata></package>";
    let p = Package::from_reader(doc).unwrap();
    let l = p.metadata.license.unwrap();
    assert_eq!(l.kind, LicenseType::File);
    assert_eq!(l.value, "LICENSE.txt");
}

#[test]
fn entities_are_decoded() {
    let doc = "<package><metadata>\
        <id>A</id><version>1.0</version>\
        <authors>Black &amp; White &lt;partners&gt;</authors>\
        <description>&quot;quoted&quot; &apos;text&apos;</description>\
        </metadata></package>";
    let p = Package::from_reader(doc).unwrap();
    assert_eq!(p.metadata.authors, "Black & White <partners>");
    assert_eq!(p.metadata.description, "\"quoted\" 'text'");
}

#[test]
fn values_are_trimmed() {
    let doc = "<package><metadata>\
        <id>\n      Acme.Widget\n    </id><version>1.0</version>\
        <authors>B</authors><description>D</description>\
        </metadata></package>";
    let p = Package::from_reader(doc).unwrap();
    assert_eq!(p.metadata.id, "Acme.Widget");
}

#[test]
fn holders_prefer_owners() {
    let p = Package::from_reader(FULL_DOC).unwrap();
    assert_eq!(p.metadata.holders(), "Acme Holdings");
    let doc = "<package><metadata>\
        <id>A</id><version>1.0</version><authors>B</authors><description>D</description>\
        </metadata></package>";
    let q = Package::from_reader(doc).unwrap();
    assert_eq!(q.metadata.holders(), "B");
}

#[test]
fn year_is_first_four_digit_run() {
    let p = Package::from_reader(FULL_DOC).unwrap();
    assert_eq!(p.metadata.year(), Some(2021));
    let doc = "<package><metadata>\
        <id>A</id><version>1.0</version><authors>B</authors><description>D</description>\
        <copyright>v1.2 (c) 12 34 5678 Acme 9999</copyright>\
        </metadata></package>";
    let q = Package::from_reader(doc).unwrap();
    assert_eq!(q.metadata.year(), Some(5678));
    let doc2 = "<package><metadata>\
        <id>A</id><version>1.0</version><authors>B</authors><description>D</description>\
        <copyright>no digits here</copyright>\
        </metadata></package>";
    assert_eq!(Package::from_reader(doc2).unwrap().metadata.year(), None);
}

#[test]
fn acceptance_flag_must_be_boolean() {
    let doc = "<package><metadata>\
        <id>A</id><version>1.0</version><authors>B</authors><description>D</description>\
        <requireLicenseAcceptance>maybe</requireLicenseAcceptance>\
        </metadata></package>";
    assert_eq!(Package::from_reader(doc).unwrap_err(), ParseError::MalformedDocument);
    let doc2 = "<package><metadata>\
        <id>A</id><version>1.0</version><authors>B</authors><description>D</description>\
        <requireLicenseAcceptance>true</requireLicenseAcceptance>\
        </metadata></package>";
    assert_eq!(
        Package::from_reader(doc2).unwrap().metadata.require_license_acceptance,
        Some(true)
    );
}
