//! Downloading and running the installer: the scripts, the digest check, the
//! installer's exit code, and the lock that keeps two runs apart.
use vstd::prelude::*;
use vstd::string::*;
use crate::github::ReleaseAsset;
use crate::powershell::{literal, quoted, script_with};
use crate::text::{
    chars_of, int_string, int_text, lower, lower_chars, starts_with, starts_with_seq, string_of,
};

verus! {

/// The script that prints the local time, as the updater records it.
pub const CURRENT_TIME_SCRIPT: &'static str = "Get-Date -Format 'yyyy-MM-dd HH:mm:ss'";

/// The start of the download script, before the quoted address.
pub const DOWNLOAD_HEAD: &'static str = r#"
$headers = @{
    'User-Agent' = 'HeliumBrowserUpdater/0.3.0'
    'Accept' = 'application/octet-stream'
}
Invoke-WebRequest -Headers $headers -Uri '"#;

/// Between the quoted address and the quoted destination of the download script.
pub const DOWNLOAD_MIDDLE: &'static str = "' -OutFile '";

/// The end of the download script.
pub const DOWNLOAD_TAIL: &'static str = "'\n";

/// The start of the hashing script, before the quoted file path.
pub const HASH_HEAD: &'static str = "(Get-FileHash -LiteralPath '";

/// The end of the hashing script: it prints the SHA-256 in lower case.
pub const HASH_TAIL: &'static str = "' -Algorithm SHA256).Hash.ToLowerInvariant()";

/// The start of the installer script, before the quoted installer path.
pub const INSTALLER_HEAD: &'static str = "\n$process = Start-Process -FilePath '";

/// The end of the installer script: a silent install, waited for, whose exit
/// code is printed as `{"exit_code": ...}`.
pub const INSTALLER_TAIL: &'static str = r#"' -ArgumentList '/S' -Wait -PassThru
[pscustomobject]@{ exit_code = $process.ExitCode } | ConvertTo-Json -Compress
"#;

/// The download script for `url` into `destination`.
pub open spec fn download_script_text(url: Seq<char>, destination: Seq<char>) -> Seq<char> {
    DOWNLOAD_HEAD@ + quoted(url) + DOWNLOAD_MIDDLE@ + quoted(destination) + DOWNLOAD_TAIL@
}

/// The script that hashes the file at `path`.
pub open spec fn hash_script_text(path: Seq<char>) -> Seq<char> {
    HASH_HEAD@ + quoted(path) + HASH_TAIL@
}

/// The script that runs the installer at `path` silently.
pub open spec fn installer_script_text(path: Seq<char>) -> Seq<char> {
    INSTALLER_HEAD@ + quoted(path) + INSTALLER_TAIL@
}

/// The script that downloads `url` into `destination`.
pub fn download_script(url: &str, destination: &str) -> (r: String)
    ensures
        r@ == download_script_text(url@, destination@),
{
    let mut s = String::from_str(DOWNLOAD_HEAD);
    let u = literal(url);
    s.append(u.as_str());
    s.append(DOWNLOAD_MIDDLE);
    let d = literal(destination);
    s.append(d.as_str());
    s.append(DOWNLOAD_TAIL);
    s
}

/// The script that prints the SHA-256 of the file at `path`, in lower case.
pub fn hash_script(path: &str) -> (r: String)
    ensures
        r@ == hash_script_text(path@),
{
    script_with(HASH_HEAD, path, HASH_TAIL)
}

/// The script that runs the installer at `path` silently and prints its exit code.
pub fn installer_script(path: &str) -> (r: String)
    ensures
        r@ == installer_script_text(path@),
{
    script_with(INSTALLER_HEAD, path, INSTALLER_TAIL)
}

/// The SHA-256 a downloaded asset must have: its digest after `sha256:`, when it
/// has a digest of that kind.
pub open spec fn expected_sha256(digest: Option<Seq<char>>) -> Option<Seq<char>> {
    match digest {
        Some(d) => if starts_with_seq(d, "sha256:"@) {
            Some(d.skip(7))
        } else {
            None
        },
        None => None,
    }
}

/// The SHA-256 to check a downloaded asset against, if any (see
/// `expected_sha256`).
pub fn digest_to_verify(asset: &ReleaseAsset) -> (r: Option<String>)
    ensures
        match r {
            Some(e) => expected_sha256(match asset.digest { Some(d) => Some(d@), None => None })
                == Some(e@),
            None => expected_sha256(match asset.digest { Some(d) => Some(d@), None => None })
                is None,
        },
{
    let d = match &asset.digest {
        Some(d) => d,
        None => return None,
    };
    let chars = chars_of(d.as_str());
    let prefix = chars_of("sha256:");
    proof {
        reveal_strlit("sha256:");
    }
    if !starts_with(&chars, &prefix) {
        return None;
    }
    let mut rest: Vec<char> = Vec::new();
    let mut i: usize = 7;
    while i < chars.len()
        invariant
            7 <= i <= chars.len(),
            rest@ == chars@.subrange(7, i as int),
        decreases chars.len() - i,
    {
        rest.push(chars[i]);
        i = i + 1;
        assert(rest@ =~= chars@.subrange(7, i as int));
    }
    assert(chars@.skip(7) =~= chars@.subrange(7, chars@.len() as int));
    Some(string_of(&rest))
}

/// The message when a download's hash is not the expected one.
pub open spec fn hash_mismatch_message(name: Seq<char>, expected: Seq<char>, actual: Seq<char>) -> Seq<char> {
    "downloaded file hash mismatch for "@ + name + " (expected sha256 "@ + expected + ", got "@
        + lower(actual) + ")"@
}

/// Checks the hash that the hashing script printed against the expected one,
/// ignoring ASCII case.
pub fn check_digest(name: &str, expected: &str, actual: &str) -> (r: Result<(), String>)
    ensures
        match r {
            Ok(()) => lower(actual@) == lower(expected@),
            Err(m) => lower(actual@) != lower(expected@) && m@ == hash_mismatch_message(
                name@,
                expected@,
                actual@,
            ),
        },
{
    let a = lower_chars(&chars_of(actual));
    let e = lower_chars(&chars_of(expected));
    let mut same = a.len() == e.len();
    let mut i: usize = 0;
    while same && i < a.len()
        invariant
            i <= a.len(),
            same ==> a.len() == e.len(),
            same ==> forall|j: int| 0 <= j < i ==> a@[j] == e@[j],
            !same ==> a@ != e@,
        decreases a.len() - i,
    {
        if a[i] != e[i] {
            same = false;
        }
        i = i + 1;
    }
    if same {
        assert(a@ =~= e@);
        Ok(())
    } else {
        let mut m = String::from_str("downloaded file hash mismatch for ");
        m.append(name);
        m.append(" (expected sha256 ");
        m.append(expected);
        m.append(", got ");
        let lowered = string_of(&a);
        m.append(lowered.as_str());
        m.append(")");
        Err(m)
    }
}

/// The message when the installer fails.
pub open spec fn installer_failure_message(code: i32) -> Seq<char> {
    "Helium installer exited with code "@ + int_text(code as int)
}

/// Reads the installer's exit code: zero is success.
pub fn installer_outcome(exit_code: i32) -> (r: Result<(), String>)
    ensures
        match r {
            Ok(()) => exit_code == 0,
            Err(m) => exit_code != 0 && m@ == installer_failure_message(exit_code),
        },
{
    if exit_code == 0 {
        Ok(())
    } else {
        let n = int_string(exit_code as i64);
        let mut m = String::from_str("Helium installer exited with code ");
        m.append(n.as_str());
        Err(m)
    }
}

/// How long a lock file may stand before another run may take it over: twelve
/// hours.
pub const LOCK_MAX_AGE_SECS: u64 = 43200;

/// Whether a lock file of this age (`None` when its age cannot be told) is left
/// over from a run that did not finish: older than twelve hours.
pub fn lock_is_stale(age: Option<(u64, u32)>) -> (b: bool)
    ensures
        b == match age {
            Some((secs, nanos)) => secs > 43200 || (secs == 43200 && nanos > 0),
            None => false,
        },
{
    match age {
        Some((secs, nanos)) => secs > LOCK_MAX_AGE_SECS || (secs == LOCK_MAX_AGE_SECS && nanos > 0),
        None => false,
    }
}

/// The message when another run holds the lock.
pub const LOCK_BUSY_MESSAGE: &'static str = "another Helium updater operation is already running";

} // verus!
