//! The update manifests of a release: which files are written, and what
//! each one holds.

use indexmap::IndexMap;
use vstd::prelude::*;
use crate::notes::{filter_notes, notes_of};
use crate::platform::{
    build_platforms, clone_platforms, all_signed, error_at, expected_entries, file_name_of,
    first_unsigned, platform_entries, platform_table, signature_of, url_of, ArtifactFile, EntryView, Platform, ReleaseError,
};

verus! {

/// A publication time, in whole seconds since the Unix epoch, UTC.
#[derive(Clone, Copy, Debug, PartialEq, Eq, Structural)]
pub struct PubDate {
    pub unix_seconds: i64,
}

/// One update manifest: the version, the notes shown to the user, the
/// publication time and each platform's download entry, in order.
#[derive(Debug)]
pub struct UpdaterJson {
    pub version: String,
    pub notes: String,
    pub pub_date: PubDate,
    pub platforms: IndexMap<String, Platform>,
}

/// An update manifest as plain values.
pub struct ManifestView {
    pub version: Seq<char>,
    pub notes: Seq<char>,
    pub pub_date: PubDate,
    pub platforms: Seq<EntryView>,
}

impl View for UpdaterJson {
    type V = ManifestView;

    open spec fn view(&self) -> ManifestView {
        ManifestView {
            version: self.version@,
            notes: self.notes@,
            pub_date: self.pub_date,
            platforms: platform_entries(self.platforms),
        }
    }
}

/// A manifest together with the path it is written to.
#[derive(Debug)]
pub struct ManifestFile {
    pub path: String,
    pub manifest: UpdaterJson,
}

/// The path of the manifest offered to the stable channel.
pub open spec fn stable_path() -> Seq<char> {
    "updater.json"@
}

/// The path of the manifest offered to the beta channel.
pub open spec fn beta_path() -> Seq<char> {
    "updater-beta.json"@
}

/// A version is a pre-release when it holds a hyphen.
pub open spec fn is_prerelease_spec(version: Seq<char>) -> bool {
    version.contains('-')
}

/// The manifest of `version` with the given notes, date and platform entries.
pub open spec fn manifest_of(
    version: Seq<char>,
    notes: Seq<char>,
    pub_date: PubDate,
    platforms: Seq<EntryView>,
) -> ManifestView {
    ManifestView { version, notes, pub_date, platforms }
}

/// The files a release writes, in the order they are written, as paths with
/// manifests: the stable manifest first, only for a version that is not a
/// pre-release; the beta manifest always.
pub open spec fn files_of(
    version: Seq<char>,
    stable_notes: Seq<char>,
    beta_notes: Seq<char>,
    pub_date: PubDate,
    platforms: Seq<EntryView>,
) -> Seq<(Seq<char>, ManifestView)> {
    let beta = (beta_path(), manifest_of(version, beta_notes, pub_date, platforms));
    if is_prerelease_spec(version) {
        seq![beta]
    } else {
        seq![(stable_path(), manifest_of(version, stable_notes, pub_date, platforms)), beta]
    }
}

/// The paths and manifests of a sequence of manifest files.
pub open spec fn files_view(files: Seq<ManifestFile>) -> Seq<(Seq<char>, ManifestView)> {
    files.map_values(|f: ManifestFile| (f.path@, f.manifest@))
}

/// What a release of `version` produces from what was found on disk and the
/// text of the two notes files: the files written, or the error that stops
/// the release before anything is written.
pub open spec fn release_of(
    version: Seq<char>,
    found: Seq<ArtifactFile>,
    stable_text: Seq<char>,
    beta_text: Seq<char>,
    pub_date: PubDate,
) -> Result<Seq<(Seq<char>, ManifestView)>, (bool, Seq<char>)> {
    if all_signed(found) {
        Ok(
            files_of(
                version,
                notes_of(stable_text),
                notes_of(beta_text),
                pub_date,
                expected_entries(version, found),
            ),
        )
    } else {
        Err(error_at(version, found, first_unsigned(found)))
    }
}

/// Whether `version` is a pre-release, that is, holds a hyphen.
pub fn is_prerelease(version: &str) -> (r: bool)
    ensures
        r == is_prerelease_spec(version@),
{
    let n = version.unicode_len();
    let mut i: usize = 0;
    while i < n
        invariant
            n == version@.len(),
            i <= n,
            forall|k: int| 0 <= k < i ==> version@[k] != '-',
        decreases n - i,
    {
        if version.get_char(i) == '-' {
            return true;
        }
        i = i + 1;
    }
    false
}

/// The files a release of `version` writes, in order: `updater.json` with the
/// stable notes, unless the version is a pre-release, then
/// `updater-beta.json` with the beta notes. Both share the version, the date
/// and the platform entries.
pub fn manifest_files(
    version: &str,
    stable_notes: String,
    beta_notes: String,
    pub_date: PubDate,
    platforms: IndexMap<String, Platform>,
) -> (r: Vec<ManifestFile>)
    ensures
        files_view(r@) == files_of(
            version@,
            stable_notes@,
            beta_notes@,
            pub_date,
            platform_entries(platforms),
        ),
{
    let mut files: Vec<ManifestFile> = Vec::new();
    if !is_prerelease(version) {
        let stable = UpdaterJson {
            version: String::from_str(version),
            notes: stable_notes,
            pub_date,
            platforms: clone_platforms(&platforms),
        };
        files.push(ManifestFile { path: String::from_str("updater.json"), manifest: stable });
    }
    let beta = UpdaterJson { version: String::from_str(version), notes: beta_notes, pub_date, platforms };
    files.push(ManifestFile { path: String::from_str("updater-beta.json"), manifest: beta });
    assert(files_view(files@) =~= files_of(
        version@,
        stable_notes@,
        beta_notes@,
        pub_date,
        platform_entries(platforms),
    ));
    files
}

/// Describes a release of `version`: `found` is what is on disk for each
/// platform, in manifest order, and the two texts are those of the stable
/// and beta notes files. Either every file to write, or the error for the
/// first platform whose artifact or signature is absent; in that case
/// nothing is to be written.
pub fn build_release(
    version: &str,
    found: &Vec<ArtifactFile>,
    stable_text: &str,
    beta_text: &str,
    pub_date: PubDate,
) -> (r: Result<Vec<ManifestFile>, ReleaseError>)
    requires
        found@.len() == platform_table().len(),
    ensures
        r is Ok <==> all_signed(found@),
        match r {
            Ok(files) => release_of(version@, found@, stable_text@, beta_text@, pub_date) == Ok::<
                _,
                (bool, Seq<char>),
            >(files_view(files@)),
            Err(e) => release_of(version@, found@, stable_text@, beta_text@, pub_date) == Err::<
                Seq<(Seq<char>, ManifestView)>,
                _,
            >(e@),
        },
{
    let platforms = match build_platforms(version, found) {
        Ok(m) => m,
        Err(e) => return Err(e),
    };
    let stable_notes = filter_notes(stable_text);
    let beta_notes = filter_notes(beta_text);
    Ok(manifest_files(version, stable_notes, beta_notes, pub_date, platforms))
}

/// Each manifest of a complete release lists exactly the shipped platforms,
/// in order, each with the URL `<base>/<file name>` for the version and the
/// signature found for it, verbatim.
pub proof fn lemma_platform_entries(
    version: Seq<char>,
    found: Seq<ArtifactFile>,
    stable_text: Seq<char>,
    beta_text: Seq<char>,
    pub_date: PubDate,
)
    requires
        found.len() == platform_table().len(),
        all_signed(found),
    ensures
        release_of(version, found, stable_text, beta_text, pub_date) is Ok,
        forall|f: int|
            0 <= f < release_of(version, found, stable_text, beta_text, pub_date)->Ok_0.len()
                ==> {
                let es = (#[trigger] release_of(
                    version,
                    found,
                    stable_text,
                    beta_text,
                    pub_date,
                )->Ok_0[f]).1.platforms;
                &&& es.len() == platform_table().len()
                &&& forall|i: int|
                    0 <= i < es.len() ==> (#[trigger] es[i]).0 == platform_table()[i].0
                        && es[i].1 == signature_of(found[i]) && es[i].2 == url_of(
                        version,
                        file_name_of(i, version),
                    )
            },
{
}

/// A pre-release writes the beta manifest and nothing else.
pub proof fn lemma_prerelease_writes_beta_only(
    version: Seq<char>,
    found: Seq<ArtifactFile>,
    stable_text: Seq<char>,
    beta_text: Seq<char>,
    pub_date: PubDate,
)
    requires
        found.len() == platform_table().len(),
        is_prerelease_spec(version),
    ensures
        release_of(version, found, stable_text, beta_text, pub_date) matches Ok(files) ==> files.len()
            == 1 && files[0].0 == beta_path() && files[0].1.notes == notes_of(beta_text),
{
}

/// A stable release writes the stable manifest and then the beta manifest;
/// they share version, date and platform entries, and each carries its own
/// notes.
pub proof fn lemma_stable_release_writes_both(
    version: Seq<char>,
    found: Seq<ArtifactFile>,
    stable_text: Seq<char>,
    beta_text: Seq<char>,
    pub_date: PubDate,
)
    requires
        found.len() == platform_table().len(),
        !is_prerelease_spec(version),
    ensures
        release_of(version, found, stable_text, beta_text, pub_date) matches Ok(files) ==> {
            &&& files.len() == 2
            &&& files[0].0 == stable_path()
            &&& files[1].0 == beta_path()
            &&& files[0].1.platforms == files[1].1.platforms
            &&& files[0].1.pub_date == files[1].1.pub_date
            &&& files[0].1.version == files[1].1.version
            &&& files[0].1.notes == notes_of(stable_text)
            &&& files[1].1.notes == notes_of(beta_text)
        },
{
}

/// An artifact or signature absent for any platform stops the release:
/// no file is written.
pub proof fn lemma_absent_file_writes_nothing(
    version: Seq<char>,
    found: Seq<ArtifactFile>,
    stable_text: Seq<char>,
    beta_text: Seq<char>,
    pub_date: PubDate,
    j: int,
)
    requires
        found.len() == platform_table().len(),
        0 <= j < found.len(),
        !(found[j] is Signed),
    ensures
        release_of(version, found, stable_text, beta_text, pub_date) is Err,
{
}

/// Two runs that differ only in the publication time produce the same
/// outcome: the same error, or the same files holding the same manifests
/// but for the date, which is each run's own.
pub proof fn lemma_only_pub_date_differs(
    version: Seq<char>,
    found: Seq<ArtifactFile>,
    stable_text: Seq<char>,
    beta_text: Seq<char>,
    d1: PubDate,
    d2: PubDate,
)
    requires
        found.len() == platform_table().len(),
    ensures
        ({
            let r1 = release_of(version, found, stable_text, beta_text, d1);
            let r2 = release_of(version, found, stable_text, beta_text, d2);
            &&& r1 is Ok <==> r2 is Ok
            &&& r1 is Err ==> r1 == r2
            &&& r1 is Ok ==> {
                &&& r1->Ok_0.len() == r2->Ok_0.len()
                &&& forall|i: int|
                    0 <= i < r1->Ok_0.len() ==> {
                        let (p1, m1) = #[trigger] r1->Ok_0[i];
                        let (p2, m2) = r2->Ok_0[i];
                        &&& p1 == p2
                        &&& m1.version == m2.version
                        &&& m1.notes == m2.notes
                        &&& m1.platforms == m2.platforms
                        &&& m1.pub_date == d1
                        &&& m2.pub_date == d2
                    }
            }
        }),
{
}

} // verus!
