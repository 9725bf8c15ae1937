use helium_updater::helium::{close_running, is_running, launch, launch_script, InstalledHelium, LaunchTarget, NativeArchitecture};
use helium_updater::logging::{error, info, log_timestamp, warn};
use helium_updater::powershell::{literal, run_script_outcome};
use helium_updater::scheduler::{daily_task_exists, ensure_daily_task, remove_daily_task, TASK_NAME};

fn installed(root: Option<&str>, exe: Option<&str>, display: Option<&str>, product: Option<&str>) -> InstalledHelium {
    InstalledHelium {
        install_root: root.map(str::to_string),
        executable_path: exe.map(str::to_string),
        display_version: display.map(str::to_string),
        product_version: product.map(str::to_string),
    }
}

#[test]
fn architecture_is_detected_from_environment() {
    assert!(matches!(NativeArchitecture::detect(Some("ARM64"), Some("x86")), NativeArchitecture::Arm64));
    assert!(matches!(NativeArchitecture::detect(None, Some("arm64")), NativeArchitecture::Arm64));
    assert!(matches!(NativeArchitecture::detect(Some("AMD64"), Some("ARM64")), NativeArchitecture::X64));
    assert!(matches!(NativeArchitecture::detect(None, None), NativeArchitecture::X64));
}

#[test]
fn architecture_names() {
    assert_eq!(NativeArchitecture::Arm64.aliases(), &["arm64", "aarch64"]);
    assert_eq!(NativeArchitecture::X64.aliases(), &["x64", "x86_64", "amd64", "win64"]);
    assert_eq!(NativeArchitecture::Arm64.label(), "arm64");
    assert_eq!(NativeArchitecture::X64.label(), "x64");
}

#[test]
fn installation_facts() {
    let none = InstalledHelium::default();
    assert!(!none.is_installed());
    assert_eq!(none.current_version(), None);
    let h = installed(None, None, None, Some("137.0.1.2"));
    assert!(h.is_installed());
    assert_eq!(h.current_version(), Some("137.0.1.2".to_string()));
    let h = installed(Some("C:\\Helium"), None, Some("0.4.5.1"), Some("137.0.1.2"));
    assert_eq!(h.current_version(), Some("0.4.5.1".to_string()));
}

#[test]
fn running_probe_needs_an_install_root() {
    assert_eq!(is_running(&installed(None, Some("C:\\x.exe"), None, None)), None);
    assert_eq!(close_running(&installed(None, None, None, None)), None);
    let probe = is_running(&installed(Some("C:\\O'Brien\\Helium"), None, None, None)).unwrap();
    assert!(probe.starts_with("\n$installRoot = 'C:\\O''Brien\\Helium'\n"));
    assert!(probe.ends_with("ConvertTo-Json -Compress\n"));
    let close = close_running(&installed(Some("C:\\Helium"), None, None, None)).unwrap();
    assert!(close.contains("Stop-Process -Force"));
}

#[test]
fn launch_prefers_the_executable() {
    match launch(&installed(Some("C:\\H"), Some("C:\\H\\helium.exe"), None, None)).unwrap() {
        LaunchTarget::Executable(e) => assert_eq!(e, "C:\\H\\helium.exe"),
        other => panic!("unexpected {other:?}"),
    }
    match launch(&installed(Some("C:\\H"), None, None, None)).unwrap() {
        LaunchTarget::HeliumUnder(r) => assert_eq!(r, "C:\\H"),
        other => panic!("unexpected {other:?}"),
    }
    assert_eq!(
        launch(&installed(None, None, Some("1.0"), None)).unwrap_err(),
        "no Helium executable path available to restart the browser"
    );
    assert_eq!(
        launch_script("C:\\a'b\\helium.exe"),
        "\nStart-Process -FilePath 'C:\\a''b\\helium.exe' -WindowStyle Minimized\n"
    );
}

#[test]
fn literal_doubles_quotes() {
    assert_eq!(literal("it's"), "it''s");
    assert_eq!(literal("''"), "''''");
    assert_eq!(literal("plain"), "plain");
    assert_eq!(literal(""), "");
}

#[test]
fn script_outcomes() {
    assert_eq!(run_script_outcome(true, "  out \r\n", "err", Some(0)), Ok("out".to_string()));
    assert_eq!(run_script_outcome(false, "out", " bad \n", Some(1)), Err("bad".to_string()));
    assert_eq!(run_script_outcome(false, " out ", "  ", Some(1)), Err("out".to_string()));
    assert_eq!(
        run_script_outcome(false, "", "", Some(3)),
        Err("PowerShell exited with code 3".to_string())
    );
    assert_eq!(
        run_script_outcome(false, "", "", None),
        Err("PowerShell exited with code -1".to_string())
    );
    assert_eq!(
        run_script_outcome(false, "", "", Some(-1073741510)),
        Err("PowerShell exited with code -1073741510".to_string())
    );
}

#[test]
fn task_scripts_name_the_task() {
    assert_eq!(TASK_NAME, "Helium Browser Updater");
    let register = ensure_daily_task("C:\\Tools\\helium-updater.exe");
    assert!(register.starts_with("\n$taskName = 'Helium Browser Updater'\n$exePath = 'C:\\Tools\\helium-updater.exe'\n"));
    assert!(register.contains("-Argument '--background'"));
    assert!(register.contains("-Daily -At '10:00AM'"));
    assert!(remove_daily_task().contains("Unregister-ScheduledTask -TaskName $taskName -Confirm:$false"));
    assert!(daily_task_exists().ends_with("[pscustomobject]@{ exists = [bool]$task } | ConvertTo-Json -Compress\n"));
}

#[test]
fn log_lines() {
    assert_eq!(info("2025-06-01 10:00:00", "hello"), "[2025-06-01 10:00:00] [INFO] hello");
    assert_eq!(warn("t", "w"), "[t] [WARN] w");
    assert_eq!(error("t", ""), "[t] [ERROR] ");
    assert_eq!(log_timestamp(Some("2025-06-01 10:00:00"), Some(5)), "2025-06-01 10:00:00");
    assert_eq!(log_timestamp(Some("  "), Some(1717236000)), "1717236000");
    assert_eq!(log_timestamp(None, Some(0)), "0");
    assert_eq!(log_timestamp(None, None), "0");
}

#[test]
fn blank_detection_output_means_nothing_installed() {
    assert!(helium_updater::helium::nothing_detected(""));
    assert!(helium_updater::helium::nothing_detected(" \r\n\t"));
    assert!(!helium_updater::helium::nothing_detected(" {\"install_root\":null}"));
}

#[test]
fn quoting_reads_back_to_the_value() {
    for value in ["it's", "''", "a'b'c", "plain", ""] {
        assert_eq!(literal(value).replace("''", "'"), value);
    }
}
