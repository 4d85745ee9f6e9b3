//! The build metadata record written beside a generated binding: package
//! identity, the header it came from, the output it went to, and the
//! machine and tool that produced it.

use vstd::prelude::*;

verus! {

/// The machine a binding was generated on.
#[derive(Debug, Clone)]
pub struct BuildMachine {
    pub os: String,
    pub arch: String,
}

impl BuildMachine {
    /// A build-machine record from the host's operating system and
    /// architecture names.
    pub fn new(os: String, arch: String) -> (r: BuildMachine)
        ensures
            r.os@ == os@,
            r.arch@ == arch@,
    {
        BuildMachine { os, arch }
    }
}

/// How the binding generator was run: its version, the explicitly chosen
/// target (if any), and the host machine.
#[derive(Debug, Clone)]
pub struct BindgenMetadata {
    pub bindgen_version: String,
    pub custom_llvm_target: Option<String>,
    pub build_host: BuildMachine,
}

impl BindgenMetadata {
    /// A generator record from the tool version, the chosen target and the
    /// host machine.
    pub fn new(
        bindgen_version: String,
        custom_llvm_target: Option<String>,
        build_host: BuildMachine,
    ) -> (r: BindgenMetadata)
        ensures
            r.bindgen_version@ == bindgen_version@,
            r.custom_llvm_target == custom_llvm_target,
            r.build_host == build_host,
    {
        BindgenMetadata { bindgen_version, custom_llvm_target, build_host }
    }
}

/// The record written beside a generated binding.
#[derive(Debug, Clone)]
pub struct Metadata {
    pub id: String,
    pub version: String,
    pub header_file_path: String,
    pub output_file_path: String,
    pub bindgen: BindgenMetadata,
}

impl Metadata {
    /// Assemble the record for one generated binding.
    pub fn new(
        id: String,
        version: String,
        header_file_path: String,
        output_file_path: String,
        custom_llvm_target: Option<String>,
        bindgen_version: String,
        build_host: BuildMachine,
    ) -> (r: Metadata)
        ensures
            r.id@ == id@,
            r.version@ == version@,
            r.header_file_path@ == header_file_path@,
            r.output_file_path@ == output_file_path@,
            r.bindgen.bindgen_version@ == bindgen_version@,
            r.bindgen.custom_llvm_target == custom_llvm_target,
            r.bindgen.build_host == build_host,
    {
        Metadata {
            id,
            version,
            header_file_path,
            output_file_path,
            bindgen: BindgenMetadata::new(bindgen_version, custom_llvm_target, build_host),
        }
    }
}

} // verus!
