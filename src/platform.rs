//! The platforms a release ships for, their artifact file names and
//! download URLs, and the ordered map from platform key to download entry.

use indexmap::IndexMap;
use vstd::prelude::*;
use crate::text::{substitute, substitute_version};

verus! {

/// indexmap's `IndexMap`, an insertion-ordered map, taken as an opaque type;
/// its contents are read through `platform_entries`.
#[verifier::external_type_specification]
#[verifier::external_body]
#[verifier::reject_recursive_types(K)]
#[verifier::reject_recursive_types(V)]
#[verifier::reject_recursive_types(S)]
pub struct ExIndexMap<K, V, S>(IndexMap<K, V, S>);

/// One platform's download entry: the artifact's detached signature, verbatim,
/// and the URL it is downloaded from.
#[derive(Clone, Debug)]
pub struct Platform {
    pub signature: String,
    pub url: String,
}

/// A platform entry as plain values: key, signature, URL.
pub type EntryView = (Seq<char>, Seq<char>, Seq<char>);

/// The entries of a platform map, in insertion order.
pub uninterp spec fn platform_entries(m: IndexMap<String, Platform>) -> Seq<EntryView>;

/// The keys of a sequence of entries, in order.
pub open spec fn keys_of(es: Seq<EntryView>) -> Seq<Seq<char>> {
    es.map_values(|e: EntryView| e.0)
}

/// Relies on `IndexMap::new`: the new map holds no entry.
#[verifier::external_body]
fn new_platform_map() -> (r: IndexMap<String, Platform>)
    ensures
        platform_entries(r) == Seq::<EntryView>::empty(),
{
    IndexMap::new()
}

/// Relies on `IndexMap::insert`: a key that is not yet present is added last
/// in order, with its value.
#[verifier::external_body]
fn insert_platform(m: &mut IndexMap<String, Platform>, key: String, value: Platform)
    requires
        !keys_of(platform_entries(*old(m))).contains(key@),
    ensures
        platform_entries(*final(m)) == platform_entries(*old(m)).push(
            (key@, value.signature@, value.url@),
        ),
{
    m.insert(key, value);
}

/// Relies on `IndexMap`'s `Clone`: the copy holds the same entries in the same
/// order (a `Platform` is cloned field by field).
#[verifier::external_body]
pub(crate) fn clone_platforms(m: &IndexMap<String, Platform>) -> (r: IndexMap<String, Platform>)
    ensures
        platform_entries(r) == platform_entries(*m),
{
    m.clone()
}

/// The number of platforms a release ships for.
pub const PLATFORM_COUNT: usize = 4;

/// The platform keys with their artifact file name templates, in manifest order.
pub open spec fn platform_table() -> Seq<(Seq<char>, Seq<char>)> {
    seq![
        ("darwin-x86_64"@, "ALCOM-{version}-universal.app.tar.gz"@),
        ("darwin-aarch64"@, "ALCOM-{version}-universal.app.tar.gz"@),
        ("linux-x86_64"@, "alcom-{version}-x86_64.AppImage.tar.gz"@),
        ("windows-x86_64"@, "ALCOM-{version}-x86_64-setup.nsis.zip"@),
    ]
}

/// The template of the directory that a release's artifacts are downloaded from.
pub open spec fn download_url_base() -> Seq<char> {
    "https://github.com/vrc-get/vrc-get/releases/download/gui-v{version}"@
}

/// The artifact file name of platform `i` for `version`.
pub open spec fn file_name_of(i: int, version: Seq<char>) -> Seq<char> {
    substitute(platform_table()[i].1, version)
}

/// The download URL of the artifact `file` of `version`.
pub open spec fn url_of(version: Seq<char>, file: Seq<char>) -> Seq<char> {
    substitute(download_url_base(), version) + seq!['/'] + file
}

/// The platform keys with their artifact file name templates, in manifest order.
pub fn platform_templates() -> (r: Vec<(&'static str, &'static str)>)
    ensures
        r@.len() == platform_table().len(),
        forall|i: int|
            0 <= i < r@.len() ==> (#[trigger] r@[i]).0@ == platform_table()[i].0 && r@[i].1@
                == platform_table()[i].1,
{
    vec![
        ("darwin-x86_64", "ALCOM-{version}-universal.app.tar.gz"),
        ("darwin-aarch64", "ALCOM-{version}-universal.app.tar.gz"),
        ("linux-x86_64", "alcom-{version}-x86_64.AppImage.tar.gz"),
        ("windows-x86_64", "ALCOM-{version}-x86_64-setup.nsis.zip"),
    ]
}

/// Each platform's key with its artifact file name for `version`, in
/// manifest order: the files that must stand in the assets directory, each
/// beside its `.sig` file.
pub fn artifact_names(version: &str) -> (r: Vec<(String, String)>)
    ensures
        r@.len() == platform_table().len(),
        forall|i: int|
            0 <= i < r@.len() ==> (#[trigger] r@[i]).0@ == platform_table()[i].0 && r@[i].1@
                == file_name_of(i, version@),
{
    let table = platform_templates();
    let mut out: Vec<(String, String)> = Vec::new();
    let mut i: usize = 0;
    while i < table.len()
        invariant
            table@.len() == platform_table().len(),
            forall|k: int|
                0 <= k < table@.len() ==> (#[trigger] table@[k]).0@ == platform_table()[k].0
                    && table@[k].1@ == platform_table()[k].1,
            i <= table@.len(),
            out@.len() == i,
            forall|k: int|
                0 <= k < i ==> (#[trigger] out@[k]).0@ == platform_table()[k].0 && out@[k].1@
                    == file_name_of(k, version@),
        decreases table@.len() - i,
    {
        let (key, template) = table[i];
        let file = substitute_version(template, version);
        out.push((String::from_str(key), file));
        i = i + 1;
    }
    out
}

/// The download URL of the artifact `file` of `version`.
pub fn download_url(version: &str, file: &str) -> (r: String)
    ensures
        r@ == url_of(version@, file@),
{
    let base = "https://github.com/vrc-get/vrc-get/releases/download/gui-v{version}";
    let mut url = substitute_version(base, version);
    url.append("/");
    proof {
        reveal_strlit("/");
    }
    url.append(file);
    url
}

/// What was found on disk for one platform's artifact.
#[derive(Debug)]
pub enum ArtifactFile {
    /// The artifact itself is absent.
    Missing,
    /// The artifact is present but its `.sig` file is absent or unreadable.
    Unsigned,
    /// Both are present; the text of the `.sig` file.
    Signed(String),
}

/// Why a release cannot be described.
#[derive(Debug)]
pub enum ReleaseError {
    /// The artifact with this file name is absent.
    MissingArtifact(String),
    /// The signature of the artifact with this file name is absent or unreadable.
    MissingSignature(String),
}

impl View for ReleaseError {
    /// Whether the artifact itself is absent, and the artifact's file name.
    type V = (bool, Seq<char>);

    open spec fn view(&self) -> (bool, Seq<char>) {
        match self {
            ReleaseError::MissingArtifact(f) => (true, f@),
            ReleaseError::MissingSignature(f) => (false, f@),
        }
    }
}

/// The signature found for an artifact, empty where there is none.
pub open spec fn signature_of(a: ArtifactFile) -> Seq<char> {
    match a {
        ArtifactFile::Signed(s) => s@,
        _ => Seq::<char>::empty(),
    }
}

/// Whether every artifact was found with its signature.
pub open spec fn all_signed(found: Seq<ArtifactFile>) -> bool {
    forall|k: int| 0 <= k < found.len() ==> #[trigger] found[k] is Signed
}

/// The error that the artifact of platform `j` gives, where it is not signed.
pub open spec fn error_at(version: Seq<char>, found: Seq<ArtifactFile>, j: int) -> (bool, Seq<char>) {
    (found[j] is Missing, file_name_of(j, version))
}

/// The first platform whose artifact is not signed, or the number of
/// platforms where there is none.
pub open spec fn first_unsigned(found: Seq<ArtifactFile>) -> int
    decreases found.len(),
{
    if found.len() == 0 {
        0
    } else if first_unsigned(found.drop_last()) < found.len() - 1 || !(found.last() is Signed) {
        first_unsigned(found.drop_last())
    } else {
        found.len() as int
    }
}

/// The platform entries of `version` for the signatures found.
pub open spec fn expected_entries(version: Seq<char>, found: Seq<ArtifactFile>) -> Seq<EntryView> {
    Seq::new(
        found.len(),
        |i: int| (platform_table()[i].0, signature_of(found[i]), url_of(version, file_name_of(i, version))),
    )
}

proof fn lemma_first_unsigned(found: Seq<ArtifactFile>)
    ensures
        0 <= first_unsigned(found) <= found.len(),
        forall|k: int| 0 <= k < first_unsigned(found) ==> #[trigger] found[k] is Signed,
        first_unsigned(found) < found.len() ==> !(found[first_unsigned(found)] is Signed),
    decreases found.len(),
{
    if found.len() > 0 {
        let prefix = found.drop_last();
        lemma_first_unsigned(prefix);
        assert(forall|k: int| 0 <= k < prefix.len() ==> prefix[k] == #[trigger] found[k]);
    }
}

proof fn lemma_table_keys_distinct()
    ensures
        forall|a: int, b: int|
            0 <= a < b < platform_table().len() ==> platform_table()[a].0 != platform_table()[b].0,
{
    reveal_strlit("darwin-x86_64");
    reveal_strlit("darwin-aarch64");
    reveal_strlit("linux-x86_64");
    reveal_strlit("windows-x86_64");
    let t = platform_table();
    assert(t[0].0[7] != t[1].0[7]);
    assert(t[0].0[0] != t[2].0[0]);
    assert(t[0].0[0] != t[3].0[0]);
    assert(t[1].0[0] != t[2].0[0]);
    assert(t[1].0[0] != t[3].0[0]);
    assert(t[2].0[0] != t[3].0[0]);
}

/// The platform map of `version` from what was found on disk for each
/// platform, in manifest order. Fails on the first platform whose artifact
/// or signature is absent, naming that artifact.
pub fn build_platforms(version: &str, found: &Vec<ArtifactFile>) -> (r: Result<
    IndexMap<String, Platform>,
    ReleaseError,
>)
    requires
        found@.len() == platform_table().len(),
    ensures
        r is Ok <==> all_signed(found@),
        r matches Ok(m) ==> platform_entries(m) == expected_entries(version@, found@),
        r matches Err(e) ==> e@ == error_at(version@, found@, first_unsigned(found@)),
{
    proof {
        lemma_first_unsigned(found@);
        lemma_table_keys_distinct();
    }
    let names = artifact_names(version);
    let mut m = new_platform_map();
    let mut i: usize = 0;
    while i < found.len()
        invariant
            found@.len() == platform_table().len() == names@.len(),
            forall|k: int|
                0 <= k < names@.len() ==> (#[trigger] names@[k]).0@ == platform_table()[k].0
                    && names@[k].1@ == file_name_of(k, version@),
            forall|a: int, b: int|
                0 <= a < b < platform_table().len() ==> platform_table()[a].0
                    != platform_table()[b].0,
            0 <= first_unsigned(found@) <= found@.len(),
            forall|k: int| 0 <= k < first_unsigned(found@) ==> #[trigger] found@[k] is Signed,
            first_unsigned(found@) < found@.len() ==> !(found@[first_unsigned(found@)] is Signed),
            i <= found@.len(),
            forall|k: int| 0 <= k < i ==> #[trigger] found@[k] is Signed,
            platform_entries(m) == expected_entries(version@, found@.subrange(0, i as int)),
        decreases found@.len() - i,
    {
        let ghost before = platform_entries(m);
        match &found[i] {
            ArtifactFile::Missing => {
                return Err(ReleaseError::MissingArtifact(names[i].1.clone()));
            },
            ArtifactFile::Unsigned => {
                return Err(ReleaseError::MissingSignature(names[i].1.clone()));
            },
            ArtifactFile::Signed(sig) => {
                let url = download_url(version, names[i].1.as_str());
                let key = names[i].0.clone();
                assert(!keys_of(before).contains(key@)) by {
                    if keys_of(before).contains(key@) {
                        let k = choose|k: int| 0 <= k < keys_of(before).len() && keys_of(before)[k] == key@;
                        assert(keys_of(before)[k] == platform_table()[k].0);
                    }
                }
                insert_platform(&mut m, key, Platform { signature: sig.clone(), url });
                assert(platform_entries(m) =~= expected_entries(version@, found@.subrange(0, i + 1)));
            },
        }
        i = i + 1;
    }
    assert(found@.subrange(0, i as int) =~= found@);
    Ok(m)
}

} // verus!
