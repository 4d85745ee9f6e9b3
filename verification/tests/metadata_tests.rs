use third_party_notices::header_processing::{preprocess_header, rust_to_llvm_target};
use third_party_notices::metadata::{BuildMachine, Metadata};

#[test]
fn target_translation_table() {
    assert_eq!(rust_to_llvm_target("x86_64-pc-windows-gnu"), Some("x86_64-w64-mingw32"));
    assert_eq!(rust_to_llvm_target("i686-pc-windows-gnu"), Some("i686-w64-mingw32"));
    assert_eq!(rust_to_llvm_target("aarch64-pc-windows-gnu"), Some("aarch64-w64-mingw32"));
    assert_eq!(rust_to_llvm_target("x86_64-pc-windows-msvc"), Some("x86_64-windows-msvc"));
    assert_eq!(rust_to_llvm_target("i686-pc-windows-msvc"), Some("i686-windows-msvc"));
    assert_eq!(rust_to_llvm_target("aarch64-pc-windows-msvc"), Some("aarch64-windows-msvc"));
    assert_eq!(rust_to_llvm_target("x86_64-unknown-linux-gnu"), None);
}

#[test]
fn metadata_record_fields() {
    let m = Metadata::new(
        "Acme.Widget".to_string(),
        "1.2.3".to_string(),
        "build/native/include/WslPluginApi.h".to_string(),
        "WslPluginApi.rs".to_string(),
        Some("x86_64-windows-msvc".to_string()),
        "0.69.4".to_string(),
        BuildMachine::new("linux".to_string(), "x86_64".to_string()),
    );
    assert_eq!(m.id, "Acme.Widget");
    assert_eq!(m.version, "1.2.3");
    assert_eq!(m.header_file_path, "build/native/include/WslPluginApi.h");
    assert_eq!(m.output_file_path, "WslPluginApi.rs");
    assert_eq!(m.bindgen.bindgen_version, "0.69.4");
    assert_eq!(m.bindgen.custom_llvm_target.as_deref(), Some("x86_64-windows-msvc"));
    assert_eq!(m.bindgen.build_host.os, "linux");
    assert_eq!(m.bindgen.build_host.arch, "x86_64");
}

#[test]
fn header_spelling_follows_target() {
    let content = "#include <Windows.h>\n#include <windows.h>\n";
    assert_eq!(
        preprocess_header(content, Some("x86_64-pc-windows-msvc")),
        "#include <Windows.h>\n#include <Windows.h>\n"
    );
    assert_eq!(
        preprocess_header(content, Some("x86_64-pc-windows-gnu")),
        "#include <windows.h>\n#include <windows.h>\n"
    );
    assert_eq!(
        preprocess_header(content, None),
        "#include <windows.h>\n#include <windows.h>\n"
    );
}
