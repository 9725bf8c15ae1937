//! The installed browser: its architecture, what is known of an installation, and
//! the scripts that look at or act on it.
use vstd::prelude::*;
use vstd::string::*;
use crate::text::{all_white, is_blank, copy_opt, chars_of, contains, contains_seq, upper, upper_chars};
use crate::powershell::{quoted, script_with};

verus! {

/// The processor architecture that Windows runs natively.
#[derive(Clone, Copy, Debug)]
pub enum NativeArchitecture {
    X64,
    Arm64,
}

/// The architecture named by the environment: `PROCESSOR_ARCHITEW6432` when set,
/// else `PROCESSOR_ARCHITECTURE`, else `AMD64`; ARM64 when that value holds
/// "ARM64" in any ASCII case.
pub open spec fn architecture_from(w6432: Option<Seq<char>>, processor: Option<Seq<char>>) -> NativeArchitecture {
    let value = match w6432 {
        Some(v) => v,
        None => match processor {
            Some(p) => p,
            None => "AMD64"@,
        },
    };
    if contains_seq(upper(value), "ARM64"@) {
        NativeArchitecture::Arm64
    } else {
        NativeArchitecture::X64
    }
}

/// The names under which release assets mark an architecture.
pub open spec fn alias_names(a: NativeArchitecture) -> Seq<Seq<char>> {
    match a {
        NativeArchitecture::Arm64 => seq!["arm64"@, "aarch64"@],
        NativeArchitecture::X64 => seq!["x64"@, "x86_64"@, "amd64"@, "win64"@],
    }
}

/// The short name shown for an architecture.
pub open spec fn label_text(a: NativeArchitecture) -> Seq<char> {
    match a {
        NativeArchitecture::Arm64 => "arm64"@,
        NativeArchitecture::X64 => "x64"@,
    }
}

impl NativeArchitecture {
    /// Decides the architecture from the two environment values that Windows sets
    /// (`None` where a variable is not set).
    pub fn detect(w6432: Option<&str>, processor: Option<&str>) -> (r: Self)
        ensures
            r == architecture_from(
                match w6432 { Some(v) => Some(v@), None => None },
                match processor { Some(v) => Some(v@), None => None },
            ),
    {
        let value: &str = match w6432 {
            Some(v) => v,
            None => match processor {
                Some(p) => p,
                None => "AMD64",
            },
        };
        let up = upper_chars(&chars_of(value));
        let pat = chars_of("ARM64");
        if contains(&up, &pat) {
            NativeArchitecture::Arm64
        } else {
            NativeArchitecture::X64
        }
    }

    /// The names under which release assets mark this architecture.
    pub fn aliases(self) -> (r: &'static [&'static str])
        ensures
            r@.len() == alias_names(self).len(),
            forall|i: int| 0 <= i < r@.len() ==> (#[trigger] r@[i])@ == alias_names(self)[i],
    {
        match self {
            NativeArchitecture::Arm64 => {
                let r: &'static [&'static str] = &["arm64", "aarch64"];
                r
            },
            NativeArchitecture::X64 => {
                let r: &'static [&'static str] = &["x64", "x86_64", "amd64", "win64"];
                r
            },
        }
    }

    /// The short name shown for this architecture.
    pub fn label(self) -> (r: &'static str)
        ensures
            r@ == label_text(self),
    {
        match self {
            NativeArchitecture::Arm64 => "arm64",
            NativeArchitecture::X64 => "x64",
        }
    }
}

/// What is known of an installed Helium. Paths are kept as text.
#[derive(Debug)]
pub struct InstalledHelium {
    pub install_root: Option<String>,
    pub executable_path: Option<String>,
    pub display_version: Option<String>,
    pub product_version: Option<String>,
}

impl Clone for InstalledHelium {
    fn clone(&self) -> (r: Self)
        ensures
            r == *self,
    {
        InstalledHelium {
            install_root: copy_opt(&self.install_root),
            executable_path: copy_opt(&self.executable_path),
            display_version: copy_opt(&self.display_version),
            product_version: copy_opt(&self.product_version),
        }
    }
}

impl Default for InstalledHelium {
    fn default() -> (r: Self)
        ensures
            r.install_root is None,
            r.executable_path is None,
            r.display_version is None,
            r.product_version is None,
    {
        InstalledHelium {
            install_root: None,
            executable_path: None,
            display_version: None,
            product_version: None,
        }
    }
}

impl InstalledHelium {
    /// Something about an installation was found.
    pub open spec fn found(&self) -> bool {
        self.install_root is Some || self.executable_path is Some || self.display_version is Some
            || self.product_version is Some
    }

    /// The version to show: the display version, else the product version.
    pub open spec fn version_shown(&self) -> Option<String> {
        match self.display_version {
            Some(v) => Some(v),
            None => self.product_version,
        }
    }

    /// Whether anything about an installation was found.
    pub fn is_installed(&self) -> (b: bool)
        ensures
            b == self.found(),
    {
        self.install_root.is_some() || self.executable_path.is_some()
            || self.display_version.is_some() || self.product_version.is_some()
    }

    /// The installed version: the display version, else the product version.
    pub fn current_version(&self) -> (r: Option<String>)
        ensures
            r == self.version_shown(),
    {
        match &self.display_version {
            Some(v) => Some(v.clone()),
            None => copy_opt(&self.product_version),
        }
    }
}

/// The script that looks for Helium in the uninstall entries of the registry and
/// prints what it finds as JSON (`install_root`, `executable_path`,
/// `display_version`, `product_version`), or nothing when Helium is not installed.
pub const DETECT_SCRIPT: &'static str = r#"
function Normalize-VersionString {
    param([string]$Version)
    if ([string]::IsNullOrWhiteSpace($Version)) { return $null }
    $match = [regex]::Match($Version, '\d+(?:\.\d+){1,3}')
    if (-not $match.Success) { return $null }
    $match.Value
}

function Convert-VersionObject {
    param([string]$Version)
    $normalized = Normalize-VersionString -Version $Version
    if (-not $normalized) { return $null }
    $parts = $normalized.Split('.')
    while ($parts.Count -lt 4) { $parts += '0' }
    if ($parts.Count -gt 4) { $parts = $parts[0..3] }
    [Version]($parts -join '.')
}

function Get-FileProductVersion {
    param([string]$Path)
    if (-not $Path -or -not (Test-Path -LiteralPath $Path)) { return $null }
    try {
        $item = Get-Item -LiteralPath $Path
        $productVersion = Normalize-VersionString -Version $item.VersionInfo.ProductVersion
        if ($productVersion) { return $productVersion }
        $fileVersion = Normalize-VersionString -Version $item.VersionInfo.FileVersion
        if ($fileVersion) { return $fileVersion }
    } catch {
    }
    return $null
}

$uninstallRoots = @(
    'HKCU:\SOFTWARE\Microsoft\Windows\CurrentVersion\Uninstall',
    'HKLM:\SOFTWARE\Microsoft\Windows\CurrentVersion\Uninstall',
    'HKLM:\SOFTWARE\WOW6432Node\Microsoft\Windows\CurrentVersion\Uninstall'
)

$entries = foreach ($root in $uninstallRoots) {
    if (-not (Test-Path -LiteralPath $root)) { continue }

    Get-ChildItem -LiteralPath $root -ErrorAction SilentlyContinue | ForEach-Object {
        try {
            $item = Get-ItemProperty -LiteralPath $_.PSPath
            if ($item.DisplayName -eq 'Helium') {
                [pscustomobject]@{
                    InstallLocation = $item.InstallLocation
                    DisplayVersion = $item.DisplayVersion
                    UninstallString = $item.UninstallString
                }
            }
        } catch {
        }
    }
}

$entry = $entries |
    Sort-Object -Property @{ Expression = { Convert-VersionObject -Version $_.DisplayVersion }; Descending = $true } |
    Select-Object -First 1

if (-not $entry) { return }

$installRoot = $entry.InstallLocation
if ([string]::IsNullOrWhiteSpace([string]$installRoot)) { $installRoot = $null }

$exeCandidates = @()
if ($installRoot) {
    $exeCandidates += (Join-Path $installRoot 'helium.exe')
    $exeCandidates += (Join-Path $installRoot 'chrome.exe')
    $exeCandidates += (Join-Path $installRoot 'Application\helium.exe')
    $exeCandidates += (Join-Path $installRoot 'Application\chrome.exe')
}

$exePath = $exeCandidates | Where-Object { Test-Path -LiteralPath $_ } | Select-Object -First 1

if (-not $exePath -and $entry.UninstallString -match '"([^"]*setup\.exe)"') {
    $setupPath = $Matches[1]
    $candidateRoot = Split-Path -Path (Split-Path -Path (Split-Path -Path $setupPath -Parent) -Parent) -Parent
    $exeCandidates = @(
        (Join-Path $candidateRoot 'helium.exe'),
        (Join-Path $candidateRoot 'chrome.exe'),
        (Join-Path $candidateRoot 'Application\helium.exe'),
        (Join-Path $candidateRoot 'Application\chrome.exe')
    )
    $exePath = $exeCandidates | Where-Object { Test-Path -LiteralPath $_ } | Select-Object -First 1
    if ($exePath -and -not $installRoot) { $installRoot = $candidateRoot }
}

[pscustomobject]@{
    install_root = $installRoot
    executable_path = $exePath
    display_version = Normalize-VersionString -Version $entry.DisplayVersion
    product_version = Get-FileProductVersion -Path $exePath
} | ConvertTo-Json -Compress
"#;

/// Whether the detection script found nothing: it printed only white space.
pub fn nothing_detected(output: &str) -> (b: bool)
    ensures
        b == all_white(output@),
{
    is_blank(&chars_of(output))
}

/// The part of the running-browser probe before the quoted install root.
pub const RUNNING_PROBE_HEAD: &'static str = "\n$installRoot = '";

/// The part of the running-browser probe after the quoted install root: it lists
/// the `helium.exe` and `chrome.exe` processes that run from under that root and
/// prints `{"running": ...}`.
pub const RUNNING_PROBE_TAIL: &'static str = r#"'
$prefix = ([IO.Path]::GetFullPath($installRoot)).TrimEnd('\') + '\'
$processes = foreach ($name in @('helium.exe', 'chrome.exe')) {
    Get-CimInstance -ClassName Win32_Process -Filter "Name = '$name'" -ErrorAction SilentlyContinue
}
$running = @($processes | Where-Object {
    $_.ExecutablePath -and ([IO.Path]::GetFullPath($_.ExecutablePath)).StartsWith($prefix, [System.StringComparison]::OrdinalIgnoreCase)
})
[pscustomobject]@{ running = [bool]($running.Count -gt 0) } | ConvertTo-Json -Compress
"#;

/// The part of the closing script after the quoted install root: it stops the
/// `helium.exe` and `chrome.exe` processes that run from under that root and
/// waits two seconds.
pub const CLOSE_RUNNING_TAIL: &'static str = r#"'
$prefix = ([IO.Path]::GetFullPath($installRoot)).TrimEnd('\') + '\'
$processes = foreach ($name in @('helium.exe', 'chrome.exe')) {
    Get-CimInstance -ClassName Win32_Process -Filter "Name = '$name'" -ErrorAction SilentlyContinue
}
$running = @($processes | Where-Object {
    $_.ExecutablePath -and ([IO.Path]::GetFullPath($_.ExecutablePath)).StartsWith($prefix, [System.StringComparison]::OrdinalIgnoreCase)
})
if ($running.Count -gt 0) {
    $running | Select-Object -ExpandProperty ProcessId | Stop-Process -Force
    Start-Sleep -Seconds 2
}
"#;

/// The part of the launch script before the quoted executable path.
pub const LAUNCH_HEAD: &'static str = "\nStart-Process -FilePath '";

/// The part of the launch script after the quoted executable path.
pub const LAUNCH_TAIL: &'static str = "' -WindowStyle Minimized\n";

/// The probe that tells whether Helium runs from under `root`.
pub open spec fn running_probe(root: Seq<char>) -> Seq<char> {
    RUNNING_PROBE_HEAD@ + quoted(root) + RUNNING_PROBE_TAIL@
}

/// The script that closes the Helium processes that run from under `root`.
pub open spec fn close_script(root: Seq<char>) -> Seq<char> {
    RUNNING_PROBE_HEAD@ + quoted(root) + CLOSE_RUNNING_TAIL@
}

/// The script that starts the browser at `exe`, minimized.
pub open spec fn launch_script_text(exe: Seq<char>) -> Seq<char> {
    LAUNCH_HEAD@ + quoted(exe) + LAUNCH_TAIL@
}

/// Decides how to learn whether Helium runs: with no install root known it does
/// not (`None`); otherwise the probe to run, whose JSON answer says.
pub fn is_running(helium: &InstalledHelium) -> (r: Option<String>)
    ensures
        match helium.install_root {
            None => r is None,
            Some(root) => r matches Some(s) && s@ == running_probe(root@),
        },
{
    match &helium.install_root {
        None => None,
        Some(root) => Some(script_with(RUNNING_PROBE_HEAD, root.as_str(), RUNNING_PROBE_TAIL)),
    }
}

/// Decides how to close a running Helium: with no install root known there is
/// nothing to do (`None`); otherwise the closing script.
pub fn close_running(helium: &InstalledHelium) -> (r: Option<String>)
    ensures
        match helium.install_root {
            None => r is None,
            Some(root) => r matches Some(s) && s@ == close_script(root@),
        },
{
    match &helium.install_root {
        None => None,
        Some(root) => Some(script_with(RUNNING_PROBE_HEAD, root.as_str(), CLOSE_RUNNING_TAIL)),
    }
}

/// Which program starting the browser means.
#[derive(Debug)]
pub enum LaunchTarget {
    /// The known executable.
    Executable(String),
    /// `helium.exe` inside this install root.
    HeliumUnder(String),
}

/// The message when the browser cannot be started.
pub open spec fn no_launch_path_message() -> Seq<char> {
    "no Helium executable path available to restart the browser"@
}

/// Decides what starting the browser runs: its executable when known, else
/// `helium.exe` under its install root; an error when neither is known.
pub fn launch(helium: &InstalledHelium) -> (r: Result<LaunchTarget, String>)
    ensures
        match (helium.executable_path, helium.install_root) {
            (Some(exe), _) => r matches Ok(LaunchTarget::Executable(e)) && e == exe,
            (None, Some(root)) => r matches Ok(LaunchTarget::HeliumUnder(d)) && d == root,
            (None, None) => r matches Err(m) && m@ == no_launch_path_message(),
        },
{
    match &helium.executable_path {
        Some(exe) => Ok(LaunchTarget::Executable(exe.clone())),
        None => match &helium.install_root {
            Some(root) => Ok(LaunchTarget::HeliumUnder(root.clone())),
            None => Err(String::from_str("no Helium executable path available to restart the browser")),
        },
    }
}

/// The script that starts the browser at `exe_path`, minimized.
pub fn launch_script(exe_path: &str) -> (r: String)
    ensures
        r@ == launch_script_text(exe_path@),
{
    script_with(LAUNCH_HEAD, exe_path, LAUNCH_TAIL)
}

} // verus!
