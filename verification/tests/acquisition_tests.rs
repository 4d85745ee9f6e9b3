use third_party_notices::acquisition::{
    after_fallback, after_primary, download_outcome, get_header_path, initial_step, install_args,
    local_package_dir, nupkg_file_name, nuspec_file_name, package_output_dir, package_url,
    primary_outcome, AcquisitionError, AcquisitionMode, AcquisitionStep,
};

#[test]
fn prefer_primary_runs_primary_first() {
    assert_eq!(initial_step(&AcquisitionMode::PreferPrimary), AcquisitionStep::RunPrimary);
    assert_eq!(initial_step(&AcquisitionMode::PrimaryOnly), AcquisitionStep::RunPrimary);
    assert_eq!(initial_step(&AcquisitionMode::FallbackOnly), AcquisitionStep::RunFallback);
}

#[test]
fn primary_failure_falls_back_under_prefer_primary() {
    let failed = Err(AcquisitionError::PrimaryToolFailed(1));
    assert_eq!(
        after_primary(&AcquisitionMode::PreferPrimary, &failed),
        AcquisitionStep::RunFallback
    );
    assert_eq!(
        after_primary(&AcquisitionMode::PrimaryOnly, &failed),
        AcquisitionStep::Fail(AcquisitionError::PrimaryToolFailed(1))
    );
    assert_eq!(after_primary(&AcquisitionMode::PreferPrimary, &Ok(())), AcquisitionStep::Done);
}

#[test]
fn fallback_succeeds_where_primary_always_fails() {
    // The primary tool always fails; the run must end exactly as the
    // fallback alone would.
    let primary: Result<(), AcquisitionError> = Err(AcquisitionError::PrimaryToolFailed(1));
    let step = after_primary(&AcquisitionMode::PreferPrimary, &primary);
    assert_eq!(step, AcquisitionStep::RunFallback);
    assert_eq!(after_fallback(&Ok(())), AcquisitionStep::Done);
}

#[test]
fn only_the_fallback_error_is_surfaced() {
    let primary: Result<(), AcquisitionError> = Err(AcquisitionError::PrimaryToolFailed(1));
    let step = after_primary(&AcquisitionMode::PreferPrimary, &primary);
    assert_eq!(step, AcquisitionStep::RunFallback);
    let fallback: Result<(), AcquisitionError> = Err(AcquisitionError::DownloadFailed(404));
    assert_eq!(
        after_fallback(&fallback),
        AcquisitionStep::Fail(AcquisitionError::DownloadFailed(404))
    );
}

#[test]
fn exit_status_mapping() {
    assert_eq!(primary_outcome(0), Ok(()));
    assert_eq!(primary_outcome(3), Err(AcquisitionError::PrimaryToolFailed(3)));
    assert_eq!(primary_outcome(-1), Err(AcquisitionError::PrimaryToolFailed(-1)));
}

#[test]
fn download_status_mapping() {
    assert_eq!(download_outcome(200), Ok(()));
    assert_eq!(download_outcome(204), Ok(()));
    assert_eq!(download_outcome(299), Ok(()));
    assert_eq!(download_outcome(199), Err(AcquisitionError::DownloadFailed(199)));
    assert_eq!(download_outcome(301), Err(AcquisitionError::DownloadFailed(301)));
    assert_eq!(download_outcome(404), Err(AcquisitionError::DownloadFailed(404)));
}

#[test]
fn download_url_format() {
    assert_eq!(
        package_url("Microsoft.WSL.PluginApi", "1.0.5"),
        "https://www.nuget.org/api/v2/package/Microsoft.WSL.PluginApi/1.0.5"
    );
}

#[test]
fn install_argument_list() {
    let args = install_args("Acme.Widget", "1.2.3", "out/nuget_packages");
    assert_eq!(
        args,
        vec![
            "install",
            "Acme.Widget",
            "-Version",
            "1.2.3",
            "-OutputDirectory",
            "out/nuget_packages",
            "-NonInteractive",
        ]
    );
}

#[test]
fn artifact_paths() {
    assert_eq!(local_package_dir("out"), "out/nuget_packages");
    assert_eq!(
        package_output_dir("out", "Acme.Widget", "1.2.3"),
        "out/nuget_packages/Acme.Widget.1.2.3"
    );
    assert_eq!(nuspec_file_name("Acme.Widget"), "Acme.Widget.nuspec");
    assert_eq!(nupkg_file_name("Acme.Widget", "1.2.3"), "Acme.Widget.1.2.3.nupkg");
    assert_eq!(
        get_header_path("out/pkg", "WslPluginApi.h"),
        "out/pkg/build/native/include/WslPluginApi.h"
    );
}
