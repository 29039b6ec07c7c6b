use vstd::prelude::*;
use crate::auth::{json_str_at, json_str_field};
use crate::config::opt_view;
use crate::uri::or_empty;
use crate::error::TempestError;
use crate::launcher::{lowercase, lowercase_view};
use crate::text::{
    ascii_lower_seq, ascii_lowercase, chars_eq, chars_of, contains, ends_with, is_white_space,
    is_whitespace, owned, push_char, str_contains, str_ends_with, str_eq, string_of,
};

verus! {

// ---------------------------------------------------------------------------
// Picking the release assets
// ---------------------------------------------------------------------------

/// One asset of a GE-Proton release: its name and download URL (empty when
/// the release lists none).
#[derive(Clone)]
pub struct ReleaseAsset {
    pub name: String,
    pub url: String,
}

/// What the installer downloads: the release tag, the archive URL, and the
/// checksum URL when one is published.
pub struct ReleaseChoice {
    pub tag: String,
    pub archive_url: String,
    pub checksum_url: Option<String>,
}

/// The architecture the release is picked for: `aarch64` on ARM64 hosts,
/// `x86_64` on all others.
pub open spec fn release_arch_spec(host_arch: Seq<char>) -> Seq<char> {
    if host_arch == "aarch64"@ {
        "aarch64"@
    } else {
        "x86_64"@
    }
}

pub fn release_arch(host_arch: &str) -> (r: String)
    ensures
        r@ == release_arch_spec(host_arch@),
{
    if str_eq(host_arch, "aarch64") {
        owned("aarch64")
    } else {
        owned("x86_64")
    }
}

/// An archive built for `arch`.
pub open spec fn arch_archive(name: Seq<char>, arch: Seq<char>) -> bool {
    ends_with(name, ".tar.gz"@) && !ends_with(name, ".sha512sum"@) && contains(
        name,
        "-"@ + arch,
    )
}

/// An archive with no architecture in its name, taken on x86_64 when no
/// archive for the architecture comes before it.
pub open spec fn generic_archive(name: Seq<char>, arch: Seq<char>) -> bool {
    arch == "x86_64"@ && ends_with(name, ".tar.gz"@) && !ends_with(name, ".sha512sum"@)
        && !contains(name, "-"@ + arch) && !contains(lowercase_view(name), "aarch64"@)
}

/// A checksum file for `arch`.
pub open spec fn arch_checksum(name: Seq<char>, arch: Seq<char>) -> bool {
    ends_with(name, ".sha512sum"@) && contains(name, arch)
}

/// A checksum file with no architecture in its name.
pub open spec fn generic_checksum(name: Seq<char>, arch: Seq<char>) -> bool {
    ends_with(name, ".sha512sum"@) && !contains(name, arch) && !contains(name, "aarch64"@)
}

/// An asset as its name and download URL.
pub type AssetView = (Seq<char>, Seq<char>);

pub open spec fn asset_views(assets: Seq<ReleaseAsset>) -> Seq<AssetView> {
    assets.map_values(|a: ReleaseAsset| (a.name@, a.url@))
}

pub open spec fn opt_assets_view(assets: Option<Vec<ReleaseAsset>>) -> Option<Seq<AssetView>> {
    match assets {
        Some(a) => Some(asset_views(a@)),
        None => None,
    }
}

pub open spec fn names(assets: Seq<AssetView>) -> Seq<Seq<char>> {
    assets.map_values(|a: AssetView| a.0)
}

/// The index of the first name that satisfies `p`.
pub open spec fn first_match(s: Seq<Seq<char>>, p: spec_fn(Seq<char>) -> bool) -> Option<int>
    decreases s.len(),
{
    if s.len() == 0 {
        None
    } else {
        match first_match(s.drop_last(), p) {
            Some(k) => Some(k),
            None => if p(s.last()) {
                Some(s.len() - 1)
            } else {
                None
            },
        }
    }
}

proof fn lemma_first_match_bound(s: Seq<Seq<char>>, p: spec_fn(Seq<char>) -> bool)
    ensures
        first_match(s, p) matches Some(k) ==> 0 <= k < s.len() && p(s[k]),
    decreases s.len(),
{
    if s.len() > 0 {
        lemma_first_match_bound(s.drop_last(), p);
    }
}

/// The archive chosen: the first one for the architecture, else the first
/// generic one that comes before any for the architecture.
pub open spec fn chosen_archive(assets: Seq<AssetView>, arch: Seq<char>) -> Option<int> {
    match first_match(names(assets), |n: Seq<char>| arch_archive(n, arch)) {
        Some(k) => Some(k),
        None => first_match(names(assets), |n: Seq<char>| generic_archive(n, arch)),
    }
}

/// The checksum chosen: the first one for the architecture, else the first
/// generic one.
pub open spec fn chosen_checksum(assets: Seq<AssetView>, arch: Seq<char>) -> Option<int> {
    match first_match(names(assets), |n: Seq<char>| arch_checksum(n, arch)) {
        Some(k) => Some(k),
        None => first_match(names(assets), |n: Seq<char>| generic_checksum(n, arch)),
    }
}

fn is_arch_archive(name: &str, dash_arch: &str, arch: &str) -> (r: bool)
    requires
        dash_arch@ == "-"@ + arch@,
    ensures
        r == arch_archive(name@, arch@),
{
    str_ends_with(name, ".tar.gz") && !str_ends_with(name, ".sha512sum") && str_contains(
        name,
        dash_arch,
    )
}

fn is_generic_archive(name: &str, dash_arch: &str, arch: &str) -> (r: bool)
    requires
        dash_arch@ == "-"@ + arch@,
    ensures
        r == generic_archive(name@, arch@),
{
    if !(str_eq(arch, "x86_64") && str_ends_with(name, ".tar.gz") && !str_ends_with(
        name,
        ".sha512sum",
    ) && !str_contains(name, dash_arch)) {
        return false;
    }
    let lower = lowercase(name);
    !str_contains(&lower, "aarch64")
}

fn is_arch_checksum(name: &str, arch: &str) -> (r: bool)
    ensures
        r == arch_checksum(name@, arch@),
{
    str_ends_with(name, ".sha512sum") && str_contains(name, arch)
}

fn is_generic_checksum(name: &str, arch: &str) -> (r: bool)
    ensures
        r == generic_checksum(name@, arch@),
{
    str_ends_with(name, ".sha512sum") && !str_contains(name, arch) && !str_contains(
        name,
        "aarch64",
    )
}

/// What `select_release` returns for the tag and the assets (each `None`
/// when the release lacks it): errors for a missing tag, missing assets, no
/// archive, or an archive without URL; else the tag, the chosen archive's
/// URL and the chosen checksum file's URL.
pub open spec fn release_result(
    tag: Option<Seq<char>>,
    assets: Option<Seq<AssetView>>,
    host_arch: Seq<char>,
    r: Result<ReleaseChoice, TempestError>,
) -> bool {
    match tag {
        None => r matches Err(TempestError::Other(m)) && m@ == "no tag_name in release"@,
        Some(t) => match assets {
            None => r matches Err(TempestError::Other(m)) && m@ == "no assets in release"@,
            Some(a) => {
                let arch = release_arch_spec(host_arch);
                match chosen_archive(a, arch) {
                    None => r matches Err(TempestError::Other(m)) && m@
                        == "no GE-Proton archive asset found"@,
                    Some(k) => if a[k].1.len() == 0 {
                        r matches Err(TempestError::Other(m)) && m@
                            == "archive asset has no download URL"@
                    } else {
                        r matches Ok(c) && c.tag@ == t && c.archive_url@ == a[k].1 && match chosen_checksum(a, arch) {
                            Some(j) => c.checksum_url matches Some(u) && u@ == a[j].1,
                            None => c.checksum_url is None,
                        }
                    },
                }
            },
        },
    }
}

/// The release to install, from the release's tag and asset list (each
/// `None` when the release lacks it) and the host architecture: the tag
/// and the assets must be present, and an archive must be found that has a
/// download URL.
pub fn select_release(
    tag: Option<String>,
    assets: Option<Vec<ReleaseAsset>>,
    host_arch: &str,
) -> (r: Result<ReleaseChoice, TempestError>)
    ensures
        release_result(opt_view(tag), opt_assets_view(assets), host_arch@, r),
{
    let tag = match tag {
        Some(t) => t,
        None => return Err(TempestError::Other(owned("no tag_name in release"))),
    };
    let assets = match assets {
        Some(a) => a,
        None => return Err(TempestError::Other(owned("no assets in release"))),
    };
    let arch = release_arch(host_arch);
    let mut dash_arch = owned("-");
    crate::text::push_str(&mut dash_arch, &arch);
    let ghost ns = names(asset_views(assets@));
    let ghost pa = |n: Seq<char>| arch_archive(n, arch@);
    let ghost pg = |n: Seq<char>| generic_archive(n, arch@);
    let ghost pc = |n: Seq<char>| arch_checksum(n, arch@);
    let ghost pgc = |n: Seq<char>| generic_checksum(n, arch@);
    let mut archive: Option<usize> = None;
    let mut generic: Option<usize> = None;
    let mut checksum: Option<usize> = None;
    let mut generic_sum: Option<usize> = None;
    let mut i: usize = 0;
    while i < assets.len()
        invariant
            0 <= i <= assets.len(),
            ns == names(asset_views(assets@)),
            dash_arch@ == "-"@ + arch@,
            pa == (|n: Seq<char>| arch_archive(n, arch@)),
            pg == (|n: Seq<char>| generic_archive(n, arch@)),
            pc == (|n: Seq<char>| arch_checksum(n, arch@)),
            pgc == (|n: Seq<char>| generic_checksum(n, arch@)),
            archive == opt_usize(first_match(ns.take(i as int), pa)),
            archive is None ==> generic == opt_usize(first_match(ns.take(i as int), pg)),
            checksum == opt_usize(first_match(ns.take(i as int), pc)),
            generic_sum == opt_usize(first_match(ns.take(i as int), pgc)),
            forall|k: int| 0 <= k < i ==> #[trigger] ns.take(i as int)[k] == ns[k],
        decreases assets.len() - i,
    {
        let name = &assets[i].name;
        proof {
            assert(ns.take(i + 1).drop_last() =~= ns.take(i as int));
            assert(ns.take(i + 1).last() == name@);
        }
        if str_ends_with(name, ".sha512sum") {
            if is_arch_checksum(name, &arch) {
                if checksum.is_none() {
                    checksum = Some(i);
                }
            } else if is_generic_checksum(name, &arch) && generic_sum.is_none() {
                generic_sum = Some(i);
            }
        } else if str_ends_with(name, ".tar.gz") {
            if is_arch_archive(name, &dash_arch, &arch) && archive.is_none() {
                archive = Some(i);
            } else if archive.is_none() && generic.is_none() && is_generic_archive(
                name,
                &dash_arch,
                &arch,
            ) {
                generic = Some(i);
            }
        }
        i = i + 1;
    }
    proof {
        assert(ns.take(i as int) =~= ns);
        lemma_first_match_bound(ns, pa);
        lemma_first_match_bound(ns, pg);
        lemma_first_match_bound(ns, pc);
        lemma_first_match_bound(ns, pgc);
    }
    let chosen = match archive {
        Some(k) => k,
        None => match generic {
            Some(k) => k,
            None => return Err(TempestError::Other(owned("no GE-Proton archive asset found"))),
        },
    };
    let url = &assets[chosen].url;
    if url.as_str().is_empty() {
        return Err(TempestError::Other(owned("archive asset has no download URL")));
    }
    let checksum_url = match checksum {
        Some(k) => Some(assets[k].url.clone()),
        None => match generic_sum {
            Some(k) => Some(assets[k].url.clone()),
            None => None,
        },
    };
    Ok(ReleaseChoice { tag, archive_url: url.clone(), checksum_url })
}

// ---------------------------------------------------------------------------
// The release as the GitHub API describes it
// ---------------------------------------------------------------------------

/// `serde_json::from_str::<Value>(body)` succeeds.
pub uninterp spec fn json_parses_at(body: Seq<char>) -> bool;

/// `serde_json::from_str::<Value>(body)`, then the array under `assets`,
/// each element read as its `name` and `browser_download_url` strings
/// (`None` where a field is missing or not a string).
pub uninterp spec fn json_assets_at(body: Seq<char>) -> Option<
    Seq<(Option<Seq<char>>, Option<Seq<char>>)>,
>;

pub open spec fn fields_view(v: Seq<(Option<String>, Option<String>)>) -> Seq<
    (Option<Seq<char>>, Option<Seq<char>>),
> {
    v.map_values(|p: (Option<String>, Option<String>)| (opt_view(p.0), opt_view(p.1)))
}

/// Whether `body` is JSON (`serde_json`).  The result is the name
/// `json_parses_at`; the JSON grammar is not stated.
#[verifier::external_body]
fn json_parses(body: &str) -> (r: bool)
    ensures
        r == json_parses_at(body@),
{
    serde_json::from_str::<serde_json::Value>(body).is_ok()
}

/// The `assets` array of the JSON in `body` (`serde_json`), each element as
/// its `name` and `browser_download_url` strings.  The result is the name
/// `json_assets_at`; the JSON grammar is not stated.
#[verifier::external_body]
fn json_release_assets(body: &str) -> (r: Option<Vec<(Option<String>, Option<String>)>>)
    ensures
        match r {
            Some(v) => json_assets_at(body@) == Some(fields_view(v@)),
            None => json_assets_at(body@) is None,
        },
{
    let v = serde_json::from_str::<serde_json::Value>(body).ok()?;
    let list = v.get("assets")?.as_array()?;
    Some(list.iter().map(|a| (
        a.get("name").and_then(|x| x.as_str()).map(|x| x.to_string()),
        a.get("browser_download_url").and_then(|x| x.as_str()).map(|x| x.to_string()),
    )).collect())
}

/// An asset from its JSON fields, a missing field read as empty.
pub open spec fn asset_of_fields(p: (Option<Seq<char>>, Option<Seq<char>>)) -> AssetView {
    (or_empty(p.0), or_empty(p.1))
}

pub open spec fn assets_of_json(f: Option<Seq<(Option<Seq<char>>, Option<Seq<char>>)>>) -> Option<
    Seq<AssetView>,
> {
    match f {
        Some(v) => Some(v.map_values(|p: (Option<Seq<char>>, Option<Seq<char>>)| asset_of_fields(p))),
        None => None,
    }
}

fn string_or_empty(o: &Option<String>) -> (r: String)
    ensures
        r@ == or_empty(opt_view(*o)),
{
    match o {
        Some(s) => s.clone(),
        None => String::new(),
    }
}

/// The release to install from the body of the latest-release response: a
/// body that is not JSON is a decoding error; otherwise the release is
/// selected from its `tag_name` and `assets`.
pub fn release_from_body(body: &str, host_arch: &str) -> (r: Result<ReleaseChoice, TempestError>)
    ensures
        !json_parses_at(body@) ==> (r matches Err(TempestError::NetworkError(m)) && m@
            == "error decoding response body"@),
        json_parses_at(body@) ==> release_result(
            json_str_at(body@, "tag_name"@),
            assets_of_json(json_assets_at(body@)),
            host_arch@,
            r,
        ),
{
    if !json_parses(body) {
        return Err(TempestError::NetworkError(owned("error decoding response body")));
    }
    let tag = json_str_field(body, "tag_name");
    let fields = json_release_assets(body);
    let assets = match fields {
        None => None,
        Some(f) => {
            let ghost fv = fields_view(f@);
            let mut out: Vec<ReleaseAsset> = Vec::new();
            let mut i: usize = 0;
            while i < f.len()
                invariant
                    0 <= i <= f.len(),
                    out@.len() == i,
                    fv == fields_view(f@),
                    asset_views(out@) == fv.take(i as int).map_values(
                        |p: (Option<Seq<char>>, Option<Seq<char>>)| asset_of_fields(p),
                    ),
                decreases f.len() - i,
            {
                let name = string_or_empty(&f[i].0);
                let url = string_or_empty(&f[i].1);
                let ghost before = out@;
                out.push(ReleaseAsset { name, url });
                proof {
                    assert(fv[i as int] == (opt_view(f@[i as int].0), opt_view(f@[i as int].1)));
                    assert forall|k: int| 0 <= k < i implies #[trigger] asset_views(out@)[k]
                        == asset_views(before)[k] by {
                        assert(out@[k] == before[k]);
                    }
                }
                i = i + 1;
                assert(asset_views(out@) =~= fv.take(i as int).map_values(
                    |p: (Option<Seq<char>>, Option<Seq<char>>)| asset_of_fields(p),
                ));
            }
            assert(fv.take(i as int) =~= fv);
            Some(out)
        },
    };
    let ghost tv = opt_view(tag);
    assert(tv == json_str_at(body@, "tag_name"@));
    assert(opt_assets_view(assets) == assets_of_json(json_assets_at(body@)));
    select_release(tag, assets, host_arch)
}

/// On a host that is not x86_64 only an archive built for its architecture
/// is installed: a chosen archive's name ends in `.tar.gz` and holds
/// `-<arch>`, and a release without such an archive is refused.
pub proof fn lemma_archive_for_host_arch(
    tag: Seq<char>,
    assets: Seq<AssetView>,
    host_arch: Seq<char>,
    r: Result<ReleaseChoice, TempestError>,
)
    requires
        release_result(Some(tag), Some(assets), host_arch, r),
    ensures
        r matches Ok(c) ==> exists|k: int|
            0 <= k < assets.len() && #[trigger] assets[k].1 == c.archive_url@ && ends_with(
                assets[k].0,
                ".tar.gz"@,
            ) && (release_arch_spec(host_arch) != "x86_64"@ ==> contains(
                assets[k].0,
                "-"@ + release_arch_spec(host_arch),
            )),
        (release_arch_spec(host_arch) != "x86_64"@ && forall|k: int|
            0 <= k < assets.len() ==> !contains(#[trigger] assets[k].0, "-"@ + release_arch_spec(
                host_arch,
            ))) ==> (r matches Err(TempestError::Other(m)) && m@
            == "no GE-Proton archive asset found"@),
{
    let arch = release_arch_spec(host_arch);
    let ns = names(assets);
    let pa = |n: Seq<char>| arch_archive(n, arch);
    let pg = |n: Seq<char>| generic_archive(n, arch);
    lemma_first_match_bound(ns, pa);
    lemma_first_match_bound(ns, pg);
    match chosen_archive(assets, arch) {
        Some(k) => {
            assert(ns[k] == assets[k].0);
            if first_match(ns, pa) is None {
                assert(pg(ns[k]));
            }
            if r is Ok {
                assert(assets[k].1 == r->Ok_0.archive_url@);
            }
        },
        None => {},
    }
}

pub open spec fn opt_usize(o: Option<int>) -> Option<usize> {
    match o {
        Some(k) => Some(k as usize),
        None => None,
    }
}

/// The file the release archive is saved to in the install directory.
pub fn archive_file_name(tag: &str) -> (r: String)
    ensures
        r@ == tag@ + ".tar.gz"@,
{
    let mut r = owned(tag);
    crate::text::push_str(&mut r, ".tar.gz");
    r
}

// ---------------------------------------------------------------------------
// Checksums
// ---------------------------------------------------------------------------

/// The first white-space separated word of `s` (`split_whitespace().next()`).
pub open spec fn first_word(s: Seq<char>) -> Option<Seq<char>> {
    let t = crate::text::trim_start(s);
    if t.len() == 0 {
        None
    } else {
        Some(t.subrange(0, word_end(t, 0)))
    }
}

/// The end of the word that starts at `from`.
pub open spec fn word_end(s: Seq<char>, from: int) -> int
    decreases s.len() - from,
{
    if from >= s.len() {
        s.len() as int
    } else if is_white_space(s[from]) {
        from
    } else {
        word_end(s, from + 1)
    }
}

/// The checksum that a `.sha512sum` file announces: its first word in
/// ASCII lower case.
pub open spec fn expected_checksum_spec(body: Seq<char>) -> Option<Seq<char>> {
    match first_word(body) {
        Some(w) => Some(ascii_lower_seq(w)),
        None => None,
    }
}

proof fn lemma_word_end(s: Seq<char>, from: int)
    requires
        0 <= from <= s.len(),
    ensures
        from <= word_end(s, from) <= s.len(),
    decreases s.len() - from,
{
    if from < s.len() && !is_white_space(s[from]) {
        lemma_word_end(s, from + 1);
    }
}

proof fn lemma_trim_start_skip_ws(s: Seq<char>, i: int)
    requires
        0 <= i <= s.len(),
        forall|j: int| 0 <= j < i ==> is_white_space(s[j]),
    ensures
        crate::text::trim_start(s) == crate::text::trim_start(s.subrange(i, s.len() as int)),
    decreases i,
{
    if i > 0 {
        assert(s.subrange(1, s.len() as int) =~= s.drop_first());
        assert forall|j: int| 0 <= j < i - 1 implies is_white_space(s.drop_first()[j]) by {
            assert(s.drop_first()[j] == s[j + 1]);
        }
        lemma_trim_start_skip_ws(s.drop_first(), i - 1);
        assert(s.drop_first().subrange(i - 1, s.drop_first().len() as int) =~= s.subrange(
            i,
            s.len() as int,
        ));
    } else {
        assert(s.subrange(0, s.len() as int) =~= s);
    }
}

/// The checksum announced by a `.sha512sum` file, if it holds a word.
pub fn expected_checksum(body: &str) -> (r: Option<String>)
    ensures
        match r {
            Some(c) => expected_checksum_spec(body@) == Some(c@),
            None => expected_checksum_spec(body@) is None,
        },
{
    let v = chars_of(body);
    let mut a: usize = 0;
    while a < v.len() && is_whitespace(v[a])
        invariant
            v@ == body@,
            0 <= a <= v.len(),
            forall|j: int| 0 <= j < a ==> is_white_space(v@[j]),
        decreases v.len() - a,
    {
        a = a + 1;
    }
    let ghost t = v@.subrange(a as int, v.len() as int);
    proof {
        lemma_trim_start_skip_ws(v@, a as int);
        if t.len() > 0 {
            assert(!is_white_space(t[0]));
        }
        assert(crate::text::trim_start(t) == t);
    }
    if a == v.len() {
        return None;
    }
    let mut e = a;
    while e < v.len() && !is_whitespace(v[e])
        invariant
            v@ == body@,
            a <= e <= v.len(),
            t == v@.subrange(a as int, v.len() as int),
            word_end(t, 0) == word_end(t, e - a),
        decreases v.len() - e,
    {
        e = e + 1;
    }
    proof {
        lemma_word_end(t, e - a);
        assert(t.subrange(0, e - a) =~= v@.subrange(a as int, e as int));
    }
    let mut w: Vec<char> = Vec::new();
    let mut k = a;
    while k < e
        invariant
            a <= k <= e <= v.len(),
            w@ == v@.subrange(a as int, k as int),
        decreases e - k,
    {
        w.push(v[k]);
        k = k + 1;
        assert(w@ =~= v@.subrange(a as int, k as int));
    }
    let lower = ascii_lowercase(&w);
    Some(string_of(&lower))
}

/// Whether the archive's digest matches the checksum file: an error when
/// the file holds no word, else whether the digest equals the announced
/// checksum.
pub fn checksum_matches(body: &str, actual: &str) -> (r: Result<bool, TempestError>)
    ensures
        match expected_checksum_spec(body@) {
            None => r matches Err(TempestError::Other(m)) && m@ == "empty checksum file"@,
            Some(e) => r == Ok::<bool, TempestError>(actual@ == e),
        },
{
    match expected_checksum(body) {
        Some(e) => Ok(str_eq(actual, &e)),
        None => Err(TempestError::Other(owned("empty checksum file"))),
    }
}

// ---------------------------------------------------------------------------
// SHA-512 of the archive
// ---------------------------------------------------------------------------

/// A `sha2::Sha512` hasher.  Verus does not take the declaration of that
/// type (an alias of a generic wrapper), so it is held here, opaque.
#[verifier::external_body]
pub struct Sha512State {
    inner: sha2::Sha512,
}

/// The bytes fed to a SHA-512 hasher so far.
pub uninterp spec fn sha512_fed(h: Sha512State) -> Seq<u8>;

/// The SHA-512 digest of `data` (64 bytes).
pub uninterp spec fn sha512_digest(data: Seq<u8>) -> Seq<u8>;

/// A byte in two lower-case hex digits, as `{:x}` prints a digest.
pub open spec fn hex_lower(d: u8) -> char {
    if d < 10 {
        ((0x30 + d) as u8) as char
    } else {
        ((0x61 + d - 10) as u8) as char
    }
}

pub open spec fn hex_bytes(bs: Seq<u8>) -> Seq<char>
    decreases bs.len(),
{
    if bs.len() == 0 {
        seq![]
    } else {
        hex_bytes(bs.drop_last()) + seq![hex_lower(bs.last() / 16), hex_lower(bs.last() % 16)]
    }
}

/// `Sha512::new`: a hasher that has been fed nothing.
#[verifier::external_body]
fn sha512_new() -> (h: Sha512State)
    ensures
        sha512_fed(h) == Seq::<u8>::empty(),
{
    Sha512State { inner: <sha2::Sha512 as sha2::Digest>::new() }
}

/// `Digest::update`: feeds `data` after what was fed before.
#[verifier::external_body]
fn sha512_update(h: &mut Sha512State, data: &[u8])
    ensures
        sha512_fed(*final(h)) == sha512_fed(*old(h)) + data@,
{
    sha2::Digest::update(&mut h.inner, data)
}

/// `Digest::finalize` printed with `{:x}`: the digest of everything fed,
/// two lower-case hex digits per byte; the digest has 64 bytes, so the
/// text has 128 characters.
#[verifier::external_body]
fn sha512_finish_hex(h: Sha512State) -> (r: String)
    ensures
        r@ == hex_bytes(sha512_digest(sha512_fed(h))),
        r@.len() == 128,
{
    format!("{:x}", sha2::Digest::finalize(h.inner))
}

/// A SHA-512 computation over data handed over in chunks.
pub struct ArchiveDigest {
    hasher: Sha512State,
}

impl ArchiveDigest {
    /// The bytes fed so far.
    pub closed spec fn fed(&self) -> Seq<u8> {
        sha512_fed(self.hasher)
    }

    pub fn new() -> (d: Self)
        ensures
            d.fed() == Seq::<u8>::empty(),
    {
        ArchiveDigest { hasher: sha512_new() }
    }

    /// Feeds the next chunk.
    pub fn update(&mut self, chunk: &[u8])
        ensures
            final(self).fed() == old(self).fed() + chunk@,
    {
        sha512_update(&mut self.hasher, chunk);
    }

    /// The digest of everything fed, in lower-case hex.
    pub fn finish_hex(self) -> (r: String)
        ensures
            r@ == hex_bytes(sha512_digest(self.fed())),
            r@.len() == 128,
    {
        sha512_finish_hex(self.hasher)
    }
}

} // verus!
