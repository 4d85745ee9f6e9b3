//! Artifact acquisition: resolving a (name, version) pair to a local
//! directory through a primary package-management tool with an HTTP
//! download fallback.
//!
//! The outside work — running the tool, issuing the download, extracting
//! the archive — is the caller's; this module decides. It plans which
//! channel runs first, what a channel's raw outcome means, and what to do
//! after each attempt, so that the whole protocol is a pure function of the
//! mode and the channels' outcomes.

use crate::text::{chars_to_string, push_all, str_to_chars};
use vstd::prelude::*;

verus! {

/// How acquisition may obtain the artifact.
#[derive(Debug, Clone, Copy, PartialEq, Eq, Structural)]
pub enum AcquisitionMode {
    /// Try the primary tool first; on any failure, retry with the fallback.
    PreferPrimary,
    /// Use only the primary tool.
    PrimaryOnly,
    /// Use only the fallback download.
    FallbackOnly,
}

/// Why acquisition failed.
#[derive(Debug, Clone, Copy, PartialEq, Eq, Structural)]
pub enum AcquisitionError {
    /// The primary tool exited with the given non-zero status.
    PrimaryToolFailed(i32),
    /// The fallback download answered with the given non-success status.
    DownloadFailed(u16),
    /// The downloaded archive could not be extracted.
    ExtractionFailed,
    /// A filesystem operation failed.
    IOFailure,
}

/// What the acquisition driver must do next.
#[derive(Debug, Clone, Copy, PartialEq, Eq, Structural)]
pub enum AcquisitionStep {
    /// Invoke the primary tool.
    RunPrimary,
    /// Perform the fallback download and extraction.
    RunFallback,
    /// The artifact is in place.
    Done,
    /// Give up with this error.
    Fail(AcquisitionError),
}

/// The channel each mode runs first.
pub open spec fn spec_initial_step(mode: AcquisitionMode) -> AcquisitionStep {
    match mode {
        AcquisitionMode::PreferPrimary => AcquisitionStep::RunPrimary,
        AcquisitionMode::PrimaryOnly => AcquisitionStep::RunPrimary,
        AcquisitionMode::FallbackOnly => AcquisitionStep::RunFallback,
    }
}

/// What follows the primary attempt: success ends the run; a failure is
/// retried through the fallback under `PreferPrimary` and is final
/// otherwise.
pub open spec fn spec_after_primary(
    mode: AcquisitionMode,
    outcome: Result<(), AcquisitionError>,
) -> AcquisitionStep {
    match outcome {
        Ok(u) => AcquisitionStep::Done,
        Err(e) => match mode {
            AcquisitionMode::PreferPrimary => AcquisitionStep::RunFallback,
            AcquisitionMode::PrimaryOnly => AcquisitionStep::Fail(e),
            AcquisitionMode::FallbackOnly => AcquisitionStep::Fail(e),
        },
    }
}

/// What follows the fallback attempt: its outcome is final.
pub open spec fn spec_after_fallback(outcome: Result<(), AcquisitionError>) -> AcquisitionStep {
    match outcome {
        Ok(u) => AcquisitionStep::Done,
        Err(e) => AcquisitionStep::Fail(e),
    }
}

/// The result of a whole acquisition run under `mode`, given what each
/// channel reports when it is run.
pub open spec fn spec_acquisition_result(
    mode: AcquisitionMode,
    primary: Result<(), AcquisitionError>,
    fallback: Result<(), AcquisitionError>,
) -> Result<(), AcquisitionError> {
    match spec_initial_step(mode) {
        AcquisitionStep::RunPrimary => match spec_after_primary(mode, primary) {
            AcquisitionStep::Done => Ok(()),
            AcquisitionStep::RunFallback => match spec_after_fallback(fallback) {
                AcquisitionStep::Done => Ok(()),
                AcquisitionStep::Fail(e) => Err(e),
                _ => Err(AcquisitionError::IOFailure),
            },
            AcquisitionStep::Fail(e) => Err(e),
            _ => Err(AcquisitionError::IOFailure),
        },
        _ => match spec_after_fallback(fallback) {
            AcquisitionStep::Done => Ok(()),
            AcquisitionStep::Fail(e) => Err(e),
            _ => Err(AcquisitionError::IOFailure),
        },
    }
}

/// The channel to run first under `mode`.
pub fn initial_step(mode: &AcquisitionMode) -> (r: AcquisitionStep)
    ensures
        r == spec_initial_step(*mode),
{
    match mode {
        AcquisitionMode::PreferPrimary => AcquisitionStep::RunPrimary,
        AcquisitionMode::PrimaryOnly => AcquisitionStep::RunPrimary,
        AcquisitionMode::FallbackOnly => AcquisitionStep::RunFallback,
    }
}

/// The step that follows the primary attempt under `mode`.
pub fn after_primary(mode: &AcquisitionMode, outcome: &Result<(), AcquisitionError>) -> (r:
    AcquisitionStep)
    ensures
        r == spec_after_primary(*mode, *outcome),
{
    match outcome {
        Ok(_) => AcquisitionStep::Done,
        Err(e) => match mode {
            AcquisitionMode::PreferPrimary => AcquisitionStep::RunFallback,
            AcquisitionMode::PrimaryOnly => AcquisitionStep::Fail(*e),
            AcquisitionMode::FallbackOnly => AcquisitionStep::Fail(*e),
        },
    }
}

/// The step that follows the fallback attempt.
pub fn after_fallback(outcome: &Result<(), AcquisitionError>) -> (r: AcquisitionStep)
    ensures
        r == spec_after_fallback(*outcome),
{
    match outcome {
        Ok(_) => AcquisitionStep::Done,
        Err(e) => AcquisitionStep::Fail(*e),
    }
}

/// What the primary tool's exit status means: zero is success, any other
/// status is the fatal tool failure carrying that status.
pub open spec fn spec_primary_outcome(exit_status: i32) -> Result<(), AcquisitionError> {
    if exit_status == 0 {
        Ok(())
    } else {
        Err(AcquisitionError::PrimaryToolFailed(exit_status))
    }
}

/// Map the primary tool's exit status to its outcome.
pub fn primary_outcome(exit_status: i32) -> (r: Result<(), AcquisitionError>)
    ensures
        r == spec_primary_outcome(exit_status),
{
    if exit_status == 0 {
        Ok(())
    } else {
        Err(AcquisitionError::PrimaryToolFailed(exit_status))
    }
}

/// What the download's HTTP status means: a success status is required,
/// anything else fails with that status.
pub open spec fn spec_download_outcome(status: u16) -> Result<(), AcquisitionError> {
    if 200 <= status < 300 {
        Ok(())
    } else {
        Err(AcquisitionError::DownloadFailed(status))
    }
}

/// Map the fallback download's HTTP status to its outcome.
pub fn download_outcome(status: u16) -> (r: Result<(), AcquisitionError>)
    ensures
        r == spec_download_outcome(status),
{
    if 200 <= status && status < 300 {
        Ok(())
    } else {
        Err(AcquisitionError::DownloadFailed(status))
    }
}

/// Fallback correctness: when the primary tool fails, a run under
/// `PreferPrimary` ends exactly as a run under `FallbackOnly` would —
/// it succeeds whenever the fallback succeeds, and surfaces only the
/// fallback's error when the fallback fails too.
pub proof fn lemma_fallback_correctness(
    primary: Result<(), AcquisitionError>,
    fallback: Result<(), AcquisitionError>,
)
    requires
        primary is Err,
    ensures
        spec_acquisition_result(AcquisitionMode::PreferPrimary, primary, fallback)
            == spec_acquisition_result(AcquisitionMode::FallbackOnly, primary, fallback),
        spec_acquisition_result(AcquisitionMode::PreferPrimary, primary, fallback) == (
        match fallback {
            Ok(u) => Ok(()),
            Err(e) => Err(e),
        }),
{
}

/// The fallback download URL for a package.
pub open spec fn spec_package_url(name: Seq<char>, version: Seq<char>) -> Seq<char> {
    "https://www.nuget.org/api/v2/package/"@ + name + seq!['/'] + version
}

/// Build the fallback download URL for (name, version).
pub fn package_url(name: &str, version: &str) -> (r: String)
    ensures
        r@ == spec_package_url(name@, version@),
{
    let mut v = str_to_chars("https://www.nuget.org/api/v2/package/");
    let n = str_to_chars(name);
    let ver = str_to_chars(version);
    push_all(&mut v, &n);
    v.push('/');
    push_all(&mut v, &ver);
    assert(v@ =~= spec_package_url(name@, version@));
    chars_to_string(&v)
}

/// The argument list handed to the primary tool.
pub open spec fn spec_install_args(
    name: Seq<char>,
    version: Seq<char>,
    package_dir: Seq<char>,
) -> Seq<Seq<char>> {
    seq![
        "install"@,
        name,
        "-Version"@,
        version,
        "-OutputDirectory"@,
        package_dir,
        "-NonInteractive"@,
    ]
}

/// Build the primary tool's argument list for an install.
pub fn install_args(name: &str, version: &str, package_dir: &str) -> (r: Vec<String>)
    ensures
        r@.map_values(|s: String| s@) == spec_install_args(name@, version@, package_dir@),
{
    let mut v: Vec<String> = Vec::new();
    v.push(String::from_str("install"));
    v.push(String::from_str(name));
    v.push(String::from_str("-Version"));
    v.push(String::from_str(version));
    v.push(String::from_str("-OutputDirectory"));
    v.push(String::from_str(package_dir));
    v.push(String::from_str("-NonInteractive"));
    assert(v@.map_values(|s: String| s@) =~= spec_install_args(name@, version@, package_dir@));
    v
}

/// The directory that holds locally installed packages.
pub open spec fn spec_local_package_dir(out_dir: Seq<char>) -> Seq<char> {
    out_dir + "/nuget_packages"@
}

/// The local package directory under `out_dir`.
pub fn local_package_dir(out_dir: &str) -> (r: String)
    ensures
        r@ == spec_local_package_dir(out_dir@),
{
    let mut v = str_to_chars(out_dir);
    let tail = str_to_chars("/nuget_packages");
    push_all(&mut v, &tail);
    chars_to_string(&v)
}

/// The directory an extracted artifact lands in:
/// `out_dir/nuget_packages/name.version`.
pub open spec fn spec_package_output_dir(
    out_dir: Seq<char>,
    name: Seq<char>,
    version: Seq<char>,
) -> Seq<char> {
    spec_local_package_dir(out_dir) + seq!['/'] + name + seq!['.'] + version
}

/// The directory the artifact for (name, version) is extracted into.
pub fn package_output_dir(out_dir: &str, name: &str, version: &str) -> (r: String)
    ensures
        r@ == spec_package_output_dir(out_dir@, name@, version@),
{
    let mut v = str_to_chars(out_dir);
    let mid = str_to_chars("/nuget_packages");
    let n = str_to_chars(name);
    let ver = str_to_chars(version);
    push_all(&mut v, &mid);
    v.push('/');
    push_all(&mut v, &n);
    v.push('.');
    push_all(&mut v, &ver);
    assert(v@ =~= spec_package_output_dir(out_dir@, name@, version@));
    chars_to_string(&v)
}

/// The manifest file's name inside an artifact: `name.nuspec`.
pub open spec fn spec_nuspec_file_name(name: Seq<char>) -> Seq<char> {
    name + ".nuspec"@
}

/// The name of the manifest file inside the artifact.
pub fn nuspec_file_name(name: &str) -> (r: String)
    ensures
        r@ == spec_nuspec_file_name(name@),
{
    let mut v = str_to_chars(name);
    let tail = str_to_chars(".nuspec");
    push_all(&mut v, &tail);
    chars_to_string(&v)
}

/// The package container's file name: `name.version.nupkg`.
pub open spec fn spec_nupkg_file_name(name: Seq<char>, version: Seq<char>) -> Seq<char> {
    name + seq!['.'] + version + ".nupkg"@
}

/// The name of the package container for (name, version).
pub fn nupkg_file_name(name: &str, version: &str) -> (r: String)
    ensures
        r@ == spec_nupkg_file_name(name@, version@),
{
    let mut v = str_to_chars(name);
    let ver = str_to_chars(version);
    let tail = str_to_chars(".nupkg");
    v.push('.');
    push_all(&mut v, &ver);
    push_all(&mut v, &tail);
    assert(v@ =~= spec_nupkg_file_name(name@, version@));
    chars_to_string(&v)
}

/// Where the native header lives inside an extracted artifact:
/// `package_dir/build/native/include/header_name`.
pub open spec fn spec_header_path(package_dir: Seq<char>, header_name: Seq<char>) -> Seq<char> {
    package_dir + "/build/native/include/"@ + header_name
}

/// The path of the named header inside an extracted artifact.
pub fn get_header_path(package_dir: &str, header_name: &str) -> (r: String)
    ensures
        r@ == spec_header_path(package_dir@, header_name@),
{
    let mut v = str_to_chars(package_dir);
    let mid = str_to_chars("/build/native/include/");
    let h = str_to_chars(header_name);
    push_all(&mut v, &mid);
    push_all(&mut v, &h);
    assert(v@ =~= spec_header_path(package_dir@, header_name@));
    chars_to_string(&v)
}

} // verus!
