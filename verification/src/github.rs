//! Releases of Helium for Windows: what a release holds, reading GitHub's answer
//! into one, and choosing the installer to download.
use vstd::prelude::*;
use vstd::string::*;
use crate::helium::{alias_names, NativeArchitecture};
use crate::text::{
    chars_of, contains, contains_seq, copy_opt, ends_with, ends_with_seq, is_blank, all_white,
    lemma_text_less_asymmetric, lemma_text_less_irreflexive, lemma_text_less_total,
    lemma_text_less_transitive, lower, lower_chars, push_char, split_chars, split_on, string_of,
    text_less, text_lt, opt_text,
};
use crate::versioning::{normalize_version_string, normalized};

verus! {

/// The GitHub repository whose releases are installed.
pub const RELEASES_REPOSITORY_SLUG: &'static str = "imputnet/helium-windows";

/// The web page of those releases.
pub const RELEASES_REPOSITORY_URL: &'static str = "https://github.com/imputnet/helium-windows/releases";

/// The script that asks GitHub for the latest release and prints it as JSON.
pub const LATEST_RELEASE_SCRIPT: &'static str = r#"
$headers = @{
    'Accept' = 'application/vnd.github+json'
    'User-Agent' = 'HeliumBrowserUpdater/0.3.1'
}
Invoke-RestMethod -Headers $headers -Uri 'https://api.github.com/repos/imputnet/helium-windows/releases/latest' | ConvertTo-Json -Depth 8 -Compress
"#;

/// One downloadable file of a release.
#[derive(Debug)]
pub struct ReleaseAsset {
    pub name: String,
    pub digest: Option<String>,
    pub download_url: String,
}

impl Clone for ReleaseAsset {
    fn clone(&self) -> (r: Self)
        ensures
            r == *self,
    {
        ReleaseAsset {
            name: self.name.clone(),
            digest: copy_opt(&self.digest),
            download_url: self.download_url.clone(),
        }
    }
}

/// A release of Helium for Windows.
#[derive(Debug)]
pub struct ReleaseInfo {
    pub tag_name: String,
    pub published_at: String,
    pub chromium_version: Option<String>,
    pub assets: Vec<ReleaseAsset>,
}

/// One asset as GitHub describes it.
#[derive(Debug)]
pub struct GitHubAsset {
    pub name: String,
    pub digest: Option<String>,
    pub browser_download_url: String,
}

/// A release as GitHub describes it.
#[derive(Debug)]
pub struct GitHubRelease {
    pub tag_name: String,
    pub published_at: String,
    pub body: String,
    pub assets: Vec<GitHubAsset>,
}

// ---------------------------------------------------------------------------
// Reading a release
// ---------------------------------------------------------------------------

/// One character of a GitHub timestamp as it is shown: `T` becomes a space and
/// `Z` becomes ` UTC`.
pub open spec fn stamp_char(c: char) -> Seq<char> {
    if c == 'T' {
        seq![' ']
    } else if c == 'Z' {
        " UTC"@
    } else {
        seq![c]
    }
}

/// A GitHub timestamp as it is shown.
pub open spec fn friendly(s: Seq<char>) -> Seq<char>
    decreases s.len(),
{
    if s.len() == 0 {
        Seq::empty()
    } else {
        friendly(s.drop_last()) + stamp_char(s.last())
    }
}

/// The line mentions Chromium, in any ASCII case.
pub open spec fn mentions_chromium(line: Seq<char>) -> bool {
    contains_seq(lower(line), "chromium"@)
}

/// The version in the first of `lines` (from `i` on) that mentions Chromium and
/// holds a dotted version.
pub open spec fn chromium_in_lines(lines: Seq<Seq<char>>, i: int) -> Option<Seq<char>>
    decreases lines.len() - i,
{
    if i < 0 || i >= lines.len() {
        None
    } else if mentions_chromium(lines[i]) && normalized(lines[i]) is Some {
        normalized(lines[i])
    } else {
        chromium_in_lines(lines, i + 1)
    }
}

/// The Chromium version that release notes announce: from the first line that
/// mentions Chromium and holds a dotted version. Lines are the pieces between
/// newlines; a carriage return at a line's end, or an empty last piece, changes
/// nothing here, so this agrees with `str::lines`.
pub open spec fn chromium_in(body: Seq<char>) -> Option<Seq<char>> {
    chromium_in_lines(split_on(body, '\n'), 0)
}

/// The tag a release is known by: the version in GitHub's tag, else the tag as is.
pub open spec fn tag_of(raw: Seq<char>) -> Seq<char> {
    match normalized(raw) {
        Some(n) => n,
        None => raw,
    }
}

/// The message when GitHub's tag is blank.
pub open spec fn empty_tag_message() -> Seq<char> {
    "GitHub returned an empty release tag"@
}

/// `info` is what GitHub's `release` describes, tag and timestamp as shown.
pub open spec fn release_read(release: GitHubRelease, info: ReleaseInfo) -> bool {
    &&& info.tag_name@ == tag_of(release.tag_name@)
    &&& info.published_at@ == friendly(release.published_at@)
    &&& opt_text(info.chromium_version) == chromium_in(release.body@)
    &&& info.assets@.len() == release.assets@.len()
    &&& forall|i: int|
        0 <= i < info.assets@.len() ==> {
            &&& (#[trigger] info.assets@[i]).name == release.assets@[i].name
            &&& info.assets@[i].digest == release.assets@[i].digest
            &&& info.assets@[i].download_url == release.assets@[i].browser_download_url
        }
}

/// Shows a GitHub timestamp: `T` becomes a space and `Z` becomes ` UTC`.
pub fn friendly_timestamp(value: &str) -> (r: String)
    ensures
        r@ == friendly(value@),
{
    let v = chars_of(value);
    let mut r = String::new();
    let mut i: usize = 0;
    while i < v.len()
        invariant
            i <= v.len(),
            r@ == friendly(v@.take(i as int)),
        decreases v.len() - i,
    {
        let c = v[i];
        proof {
            assert(v@.take(i + 1).drop_last() =~= v@.take(i as int));
        }
        if c == 'T' {
            push_char(&mut r, ' ');
        } else if c == 'Z' {
            r.append(" UTC");
        } else {
            push_char(&mut r, c);
        }
        assert(r@ =~= friendly(v@.take(i as int)) + stamp_char(c));
        i = i + 1;
    }
    assert(v@.take(v.len() as int) =~= v@);
    r
}

/// Finds the Chromium version that release notes announce.
pub fn extract_chromium_version(body: &str) -> (r: Option<String>)
    ensures
        opt_text(r) == chromium_in(body@),
{
    let lines = split_chars(&chars_of(body), '\n');
    let ghost ls = split_on(body@, '\n');
    let needle = chars_of("chromium");
    let mut i: usize = 0;
    while i < lines.len()
        invariant
            i <= lines.len(),
            ls == split_on(body@, '\n'),
            lines@.len() == ls.len(),
            forall|k: int| 0 <= k < lines@.len() ==> (#[trigger] lines@[k])@ == ls[k],
            needle@ == "chromium"@,
            chromium_in_lines(ls, 0) == chromium_in_lines(ls, i as int),
        decreases lines.len() - i,
    {
        let line = &lines[i];
        let lowered = lower_chars(line);
        assert(line@ == ls[i as int]);
        if contains(&lowered, &needle) {
            let text = string_of(line);
            match normalize_version_string(text.as_str()) {
                Some(v) => {
                    assert(mentions_chromium(ls[i as int]));
                    assert(chromium_in_lines(ls, i as int) == normalized(ls[i as int]));
                    return Some(v);
                },
                None => {},
            }
        }
        i = i + 1;
    }
    None
}

/// Reads GitHub's description of the latest release: the tag is reduced to its
/// version where it holds one, the timestamp is shown friendly, and the Chromium
/// version is taken from the notes; a blank tag is an error.
pub fn fetch_latest_release(release: GitHubRelease) -> (r: Result<ReleaseInfo, String>)
    ensures
        match r {
            Err(m) => all_white(tag_of(release.tag_name@)) && m@ == empty_tag_message(),
            Ok(info) => !all_white(tag_of(release.tag_name@)) && release_read(release, info),
        },
{
    let GitHubRelease { tag_name, published_at, body, assets } = release;
    let tag = match normalize_version_string(tag_name.as_str()) {
        Some(n) => n,
        None => tag_name,
    };
    if is_blank(&chars_of(tag.as_str())) {
        return Err(String::from_str("GitHub returned an empty release tag"));
    }
    let published = friendly_timestamp(published_at.as_str());
    let chromium = extract_chromium_version(body.as_str());
    let mut out: Vec<ReleaseAsset> = Vec::new();
    let mut rest = assets;
    let ghost all = rest@;
    while rest.len() > 0
        invariant
            out@.len() + rest@.len() == all.len(),
            rest@ == all.subrange(out@.len() as int, all.len() as int),
            forall|k: int|
                0 <= k < out@.len() ==> {
                    &&& (#[trigger] out@[k]).name == all[k].name
                    &&& out@[k].digest == all[k].digest
                    &&& out@[k].download_url == all[k].browser_download_url
                },
        decreases rest@.len(),
    {
        let a = rest.remove(0);
        out.push(ReleaseAsset { name: a.name, digest: a.digest, download_url: a.browser_download_url });
        assert(rest@ =~= all.subrange(out@.len() as int, all.len() as int));
    }
    Ok(ReleaseInfo { tag_name: tag, published_at: published, chromium_version: chromium, assets: out })
}

// ---------------------------------------------------------------------------
// Choosing the installer
// ---------------------------------------------------------------------------

/// An asset that can be the installer: an `.exe`, neither a debug build nor
/// symbols (names compared in ASCII lower case).
pub open spec fn installer_candidate(name: Seq<char>) -> bool {
    &&& ends_with_seq(lower(name), ".exe"@)
    &&& !contains_seq(lower(name), "debug"@)
    &&& !contains_seq(lower(name), "symbols"@)
}

/// The name marks the architecture by one of its aliases.
pub open spec fn names_architecture(name: Seq<char>, arch: NativeArchitecture) -> bool {
    exists|i: int| 0 <= i < alias_names(arch).len() && contains_seq(lower(name), alias_names(arch)[i])
}

/// How well an asset fits: 10 for "installer" in its name, 20 for naming the
/// architecture.
pub open spec fn rank_of(name: Seq<char>, arch: NativeArchitecture) -> int {
    (if contains_seq(lower(name), "installer"@) { 10int } else { 0int }) + (if names_architecture(
        name,
        arch,
    ) {
        20int
    } else {
        0int
    })
}

/// Asset `k` comes before asset `j`: a higher rank, else a name that sorts
/// first, else an earlier place in the list.
pub open spec fn comes_first(assets: Seq<ReleaseAsset>, arch: NativeArchitecture, k: int, j: int) -> bool {
    let rk = rank_of(assets[k].name@, arch);
    let rj = rank_of(assets[j].name@, arch);
    ||| rk > rj
    ||| (rk == rj && text_less(assets[k].name@, assets[j].name@))
    ||| (rk == rj && assets[k].name@ == assets[j].name@ && k <= j)
}

/// Asset `k` is the one chosen: a candidate that comes before every candidate.
pub open spec fn best_installer(assets: Seq<ReleaseAsset>, arch: NativeArchitecture, k: int) -> bool {
    &&& 0 <= k < assets.len()
    &&& installer_candidate(assets[k].name@)
    &&& forall|j: int|
        0 <= j < assets.len() && installer_candidate(#[trigger] assets[j].name@) ==> comes_first(
            assets,
            arch,
            k,
            j,
        )
}

/// The message when no asset can be the installer.
pub open spec fn no_installer_message() -> Seq<char> {
    "could not find a matching Helium Windows installer asset"@
}

/// Whether the (lower-cased) name names one of the architecture's aliases.
fn names_arch(lowered: &Vec<char>, arch: NativeArchitecture) -> (b: bool)
    requires
        lowered@ == lower(lowered@),
    ensures
        b == exists|i: int|
            0 <= i < alias_names(arch).len() && contains_seq(lowered@, alias_names(arch)[i]),
{
    let aliases = arch.aliases();
    let mut i: usize = 0;
    while i < aliases.len()
        invariant
            i <= aliases@.len(),
            aliases@.len() == alias_names(arch).len(),
            forall|k: int| 0 <= k < aliases@.len() ==> (#[trigger] aliases@[k])@ == alias_names(arch)[k],
            forall|k: int| 0 <= k < i ==> !contains_seq(lowered@, alias_names(arch)[k]),
        decreases aliases@.len() - i,
    {
        let alias = chars_of(aliases[i]);
        if contains(lowered, &alias) {
            return true;
        }
        i = i + 1;
    }
    false
}

proof fn lemma_lower_idempotent(s: Seq<char>)
    ensures
        lower(lower(s)) == lower(s),
{
    assert(lower(lower(s)) =~= lower(s));
}

impl ReleaseInfo {
    /// Chooses the installer to download for an architecture: among the `.exe`
    /// assets that are neither debug builds nor symbols, the highest ranked
    /// ("installer" in the name counts 10, naming the architecture 20), ties going
    /// to the name that sorts first, then to the earlier asset.
    pub fn select_installer_asset(&self, architecture: NativeArchitecture) -> (r: Result<
        ReleaseAsset,
        String,
    >)
        ensures
            match r {
                Ok(a) => exists|k: int|
                    best_installer(self.assets@, architecture, k) && a == #[trigger] self.assets@[k],
                Err(m) => m@ == no_installer_message() && forall|j: int|
                    0 <= j < self.assets@.len() ==> !installer_candidate(
                        #[trigger] self.assets@[j].name@,
                    ),
            },
    {
        let exe = chars_of(".exe");
        let debug = chars_of("debug");
        let symbols = chars_of("symbols");
        let installer = chars_of("installer");
        let ghost assets = self.assets@;
        let mut best: Option<usize> = None;
        let mut best_rank: u8 = 0;
        let mut best_name: Vec<char> = Vec::new();
        let mut j: usize = 0;
        while j < self.assets.len()
            invariant
                j <= assets.len(),
                assets == self.assets@,
                exe@ == ".exe"@,
                debug@ == "debug"@,
                symbols@ == "symbols"@,
                installer@ == "installer"@,
                match best {
                    None => forall|i: int|
                        0 <= i < j ==> !installer_candidate(#[trigger] assets[i].name@),
                    Some(k) => {
                        &&& k < j
                        &&& installer_candidate(assets[k as int].name@)
                        &&& best_rank as int == rank_of(assets[k as int].name@, architecture)
                        &&& best_name@ == assets[k as int].name@
                        &&& forall|i: int|
                            0 <= i < j && installer_candidate(#[trigger] assets[i].name@)
                                ==> comes_first(assets, architecture, k as int, i)
                    },
                },
            decreases assets.len() - j,
        {
            let name = chars_of(self.assets[j].name.as_str());
            let lowered = lower_chars(&name);
            proof {
                lemma_lower_idempotent(name@);
            }
            let candidate = ends_with(&lowered, &exe) && !contains(&lowered, &debug) && !contains(
                &lowered,
                &symbols,
            );
            if candidate {
                let mut rank: u8 = 0;
                if contains(&lowered, &installer) {
                    rank = rank + 10;
                }
                if names_arch(&lowered, architecture) {
                    rank = rank + 20;
                }
                assert(rank as int == rank_of(assets[j as int].name@, architecture));
                let better = match best {
                    None => true,
                    Some(_) => rank > best_rank || (rank == best_rank && text_lt(&name, &best_name)),
                };
                proof {
                    if let Some(k) = best {
                        let kk = k as int;
                        let jj = j as int;
                        if better {
                            assert forall|i: int|
                                0 <= i < j + 1 && installer_candidate(#[trigger] assets[i].name@)
                                    implies comes_first(assets, architecture, jj, i) by {
                                if i == jj {
                                    lemma_text_less_irreflexive(assets[jj].name@);
                                } else {
                                    assert(comes_first(assets, architecture, kk, i));
                                    if rank_of(assets[i].name@, architecture) == rank as int
                                        && rank as int == best_rank as int {
                                        if text_less(assets[kk].name@, assets[i].name@) {
                                            lemma_text_less_transitive(
                                                assets[jj].name@,
                                                assets[kk].name@,
                                                assets[i].name@,
                                            );
                                        }
                                    }
                                }
                            }
                        } else {
                            assert forall|i: int|
                                0 <= i < j + 1 && installer_candidate(#[trigger] assets[i].name@)
                                    implies comes_first(assets, architecture, kk, i) by {
                                if i == jj {
                                    if rank as int == best_rank as int {
                                        if assets[kk].name@ != assets[jj].name@ {
                                            lemma_text_less_total(
                                                assets[kk].name@,
                                                assets[jj].name@,
                                            );
                                        }
                                    }
                                }
                            }
                        }
                    }
                }
                if better {
                    best = Some(j);
                    best_rank = rank;
                    best_name = name;
                }
            }
            j = j + 1;
        }
        match best {
            Some(k) => Ok(self.assets[k].clone()),
            None => Err(String::from_str("could not find a matching Helium Windows installer asset")),
        }
    }
}

/// At most one asset is the chosen installer: ranks, then names, then places in
/// the list settle every tie.
pub proof fn lemma_best_installer_unique(
    assets: Seq<ReleaseAsset>,
    arch: NativeArchitecture,
    k1: int,
    k2: int,
)
    requires
        best_installer(assets, arch, k1),
        best_installer(assets, arch, k2),
    ensures
        k1 == k2,
{
    assert(comes_first(assets, arch, k1, k2));
    assert(comes_first(assets, arch, k2, k1));
    lemma_text_less_asymmetric(assets[k1].name@, assets[k2].name@);
    lemma_text_less_irreflexive(assets[k1].name@);
}

/// A line that announces a Chromium version: it mentions Chromium and holds a
/// dotted version.
pub open spec fn announces_chromium(line: Seq<char>) -> bool {
    mentions_chromium(line) && normalized(line) is Some
}

proof fn lemma_chromium_in_lines_first(lines: Seq<Seq<char>>, i: int)
    requires
        0 <= i <= lines.len(),
    ensures
        match chromium_in_lines(lines, i) {
            Some(v) => exists|j: int|
                i <= j < lines.len() && announces_chromium(#[trigger] lines[j]) && normalized(lines[j])
                    == Some(v) && forall|k: int| i <= k < j ==> !announces_chromium(#[trigger] lines[k]),
            None => forall|k: int| i <= k < lines.len() ==> !announces_chromium(#[trigger] lines[k]),
        },
    decreases lines.len() - i,
{
    if i < lines.len() {
        lemma_chromium_in_lines_first(lines, i + 1);
        if announces_chromium(lines[i]) {
            assert(i <= i < lines.len() && announces_chromium(lines[i]));
        } else {
            match chromium_in_lines(lines, i + 1) {
                Some(v) => {
                    let j = choose|j: int|
                        i + 1 <= j < lines.len() && announces_chromium(#[trigger] lines[j])
                            && normalized(lines[j]) == Some(v) && forall|k: int|
                            i + 1 <= k < j ==> !announces_chromium(#[trigger] lines[k]);
                    assert forall|k: int| i <= k < j implies !announces_chromium(#[trigger] lines[k]) by {
                        if k > i {
                        }
                    }
                },
                None => {},
            }
        }
    }
}

/// The Chromium version of release notes is that of the first line (between
/// newlines) that mentions Chromium and holds a dotted version; there is none only
/// when no line does both. Lines that mention Chromium without a version are
/// passed over.
pub proof fn lemma_chromium_from_first_announcing_line(body: Seq<char>)
    ensures
        ({
            let lines = split_on(body, '\n');
            match chromium_in(body) {
                Some(v) => exists|j: int|
                    0 <= j < lines.len() && mentions_chromium(#[trigger] lines[j]) && normalized(lines[j])
                        == Some(v) && forall|k: int|
                        0 <= k < j ==> !(mentions_chromium(#[trigger] lines[k]) && normalized(lines[k]) is Some),
                None => forall|k: int|
                    0 <= k < lines.len() ==> !(mentions_chromium(#[trigger] lines[k]) && normalized(lines[k]) is Some),
            }
        }),
{
    lemma_chromium_in_lines_first(split_on(body, '\n'), 0);
}

} // verus!
