use third_party_notices::version::{
    require_version, WslVersion, S_OK, WSL_E_PLUGIN_REQUIRES_UPDATE,
};

#[test]
fn test_version_exact_match() {
    let api = WslVersion { major: 1, minor: 0, revision: 0 };
    assert_eq!(require_version(1, 0, 0, &api), S_OK);
}

#[test]
fn test_version_major_too_low() {
    let api = WslVersion { major: 0, minor: 9, revision: 0 };
    assert_eq!(require_version(1, 0, 0, &api), WSL_E_PLUGIN_REQUIRES_UPDATE);
}

#[test]
fn test_version_minor_too_low() {
    let api = WslVersion { major: 1, minor: 0, revision: 0 };
    assert_eq!(require_version(1, 1, 0, &api), WSL_E_PLUGIN_REQUIRES_UPDATE);
}

#[test]
fn test_version_revision_too_low() {
    let api = WslVersion { major: 1, minor: 0, revision: 0 };
    assert_eq!(require_version(1, 0, 1, &api), WSL_E_PLUGIN_REQUIRES_UPDATE);
}

#[test]
fn test_version_high_enough() {
    let api = WslVersion { major: 1, minor: 2, revision: 3 };
    assert_eq!(require_version(1, 0, 1, &api), S_OK);
}

#[test]
fn error_code_value() {
    assert_eq!(WSL_E_PLUGIN_REQUIRES_UPDATE as u32, 0x8004032A);
    assert_eq!(S_OK, 0);
}
