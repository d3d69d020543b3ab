use build_updater_json::manifest::{
    build_release, is_prerelease, manifest_files, ManifestFile, PubDate,
};
use build_updater_json::notes::filter_notes;
use build_updater_json::platform::{
    artifact_names, build_platforms, download_url, platform_templates, ArtifactFile, Platform,
    ReleaseError, PLATFORM_COUNT,
};
use build_updater_json::text::{is_whitespace, substitute_version, trim_end_str, trimmed_end};
use indexmap::IndexMap;

const BASE: &str = "https://github.com/vrc-get/vrc-get/releases/download/gui-v";

fn signed_all() -> Vec<ArtifactFile> {
    vec![
        ArtifactFile::Signed("sig-darwin-x86\n".to_string()),
        ArtifactFile::Signed("sig-darwin-arm".to_string()),
        ArtifactFile::Signed("sig-linux".to_string()),
        ArtifactFile::Signed("sig-windows".to_string()),
    ]
}

fn date(s: i64) -> PubDate {
    PubDate { unix_seconds: s }
}

#[test]
fn notes_drop_comments_and_trim() {
    let text = "# comment\nLine one  \n# another\nLine two";
    assert_eq!(filter_notes(text), "Line one\nLine two");
}

#[test]
fn notes_empty_and_only_comments() {
    assert_eq!(filter_notes(""), "");
    assert_eq!(filter_notes("# a\n#b\n"), "");
}

#[test]
fn notes_trailing_blank_lines_and_crlf() {
    assert_eq!(filter_notes("a \r\n\r\nb\t\r\n\n\n  \n"), "a\n\nb");
    assert_eq!(filter_notes("a\n\n# x"), "a");
}

#[test]
fn notes_hash_not_first_is_kept() {
    assert_eq!(filter_notes(" # kept\n#dropped\nend"), " # kept\nend");
}

#[test]
fn whitespace_and_trim() {
    assert!(is_whitespace(' '));
    assert!(is_whitespace('\u{3000}'));
    assert!(is_whitespace('\u{85}'));
    assert!(!is_whitespace('x'));
    assert!(!is_whitespace('\u{200B}'));
    assert_eq!(trim_end_str("ab \t\n"), "ab");
    assert_eq!(trim_end_str("  "), "");
    assert_eq!(trimmed_end("xab  y", 1, 5), 3);
}

#[test]
fn substitute_every_placeholder() {
    assert_eq!(substitute_version("a-{version}-b-{version}", "1.0"), "a-1.0-b-1.0");
    assert_eq!(substitute_version("{version", "1.0"), "{version");
    assert_eq!(substitute_version("{{version}}", "9"), "{9}");
    assert_eq!(substitute_version("none", "1.0"), "none");
}

#[test]
fn url_of_artifact() {
    assert_eq!(
        download_url("1.2.3", "alcom-1.2.3-x86_64.AppImage.tar.gz"),
        format!("{}1.2.3/alcom-1.2.3-x86_64.AppImage.tar.gz", BASE)
    );
}

#[test]
fn artifact_names_for_version() {
    let t = platform_templates();
    assert_eq!(t.len(), PLATFORM_COUNT);
    let names = artifact_names("1.2.3");
    let expected = [
        ("darwin-x86_64", "ALCOM-1.2.3-universal.app.tar.gz"),
        ("darwin-aarch64", "ALCOM-1.2.3-universal.app.tar.gz"),
        ("linux-x86_64", "alcom-1.2.3-x86_64.AppImage.tar.gz"),
        ("windows-x86_64", "ALCOM-1.2.3-x86_64-setup.nsis.zip"),
    ];
    assert_eq!(names.len(), expected.len());
    for (got, want) in names.iter().zip(expected.iter()) {
        assert_eq!(got.0, want.0);
        assert_eq!(got.1, want.1);
    }
}

fn check_platforms(m: &IndexMap<String, Platform>, version: &str, sigs: &[&str]) {
    let names = artifact_names(version);
    assert_eq!(m.len(), 4);
    for (i, (key, file)) in names.iter().enumerate() {
        let (k, p) = m.get_index(i).unwrap();
        assert_eq!(k, key);
        assert_eq!(p.url, format!("{}{}/{}", BASE, version, file));
        assert_eq!(p.signature, sigs[i]);
    }
}

#[test]
fn platforms_list_all_four_in_order() {
    let m = build_platforms("1.2.3", &signed_all()).unwrap();
    let keys: Vec<&str> = m.keys().map(|k| k.as_str()).collect();
    assert_eq!(keys, vec!["darwin-x86_64", "darwin-aarch64", "linux-x86_64", "windows-x86_64"]);
    check_platforms(&m, "1.2.3", &["sig-darwin-x86\n", "sig-darwin-arm", "sig-linux", "sig-windows"]);
    assert_eq!(
        m.get("windows-x86_64").unwrap().url,
        format!("{}1.2.3/ALCOM-1.2.3-x86_64-setup.nsis.zip", BASE)
    );
}

#[test]
fn missing_artifact_is_named() {
    let mut found = signed_all();
    found[2] = ArtifactFile::Missing;
    found[3] = ArtifactFile::Unsigned;
    match build_platforms("2.0.0", &found) {
        Err(ReleaseError::MissingArtifact(f)) => assert_eq!(f, "alcom-2.0.0-x86_64.AppImage.tar.gz"),
        other => panic!("unexpected {:?}", other),
    }
}

#[test]
fn missing_signature_is_named() {
    let mut found = signed_all();
    found[1] = ArtifactFile::Unsigned;
    found[2] = ArtifactFile::Missing;
    match build_platforms("2.0.0", &found) {
        Err(ReleaseError::MissingSignature(f)) => assert_eq!(f, "ALCOM-2.0.0-universal.app.tar.gz"),
        other => panic!("unexpected {:?}", other),
    }
}

#[test]
fn prerelease_detection() {
    assert!(is_prerelease("1.2.3-beta.1"));
    assert!(!is_prerelease("1.2.3"));
    assert!(!is_prerelease(""));
}

#[test]
fn prerelease_writes_beta_only() {
    let files = build_release("1.2.3-beta.1", &signed_all(), "stable", "# c\nbeta", date(100)).unwrap();
    assert_eq!(files.len(), 1);
    assert_eq!(files[0].path, "updater-beta.json");
    assert_eq!(files[0].manifest.notes, "beta");
    assert_eq!(files[0].manifest.version, "1.2.3-beta.1");
    check_platforms(
        &files[0].manifest.platforms,
        "1.2.3-beta.1",
        &["sig-darwin-x86\n", "sig-darwin-arm", "sig-linux", "sig-windows"],
    );
}

#[test]
fn stable_writes_both() {
    let files = build_release("1.2.3", &signed_all(), "stable  \n", "beta", date(1_700_000_000)).unwrap();
    assert_eq!(files.len(), 2);
    assert_eq!(files[0].path, "updater.json");
    assert_eq!(files[1].path, "updater-beta.json");
    assert_eq!(files[0].manifest.notes, "stable");
    assert_eq!(files[1].manifest.notes, "beta");
    assert_eq!(files[0].manifest.pub_date, files[1].manifest.pub_date);
    assert_eq!(files[0].manifest.pub_date, date(1_700_000_000));
    let a: Vec<(&String, &Platform)> = files[0].manifest.platforms.iter().collect();
    let b: Vec<(&String, &Platform)> = files[1].manifest.platforms.iter().collect();
    assert_eq!(a.len(), 4);
    for (x, y) in a.iter().zip(b.iter()) {
        assert_eq!(x.0, y.0);
        assert_eq!(x.1.url, y.1.url);
        assert_eq!(x.1.signature, y.1.signature);
    }
}

#[test]
fn absent_file_writes_nothing() {
    for j in 0..4 {
        let mut found = signed_all();
        found[j] = ArtifactFile::Missing;
        assert!(build_release("1.2.3", &found, "s", "b", date(0)).is_err());
    }
}

fn same_but_date(a: &[ManifestFile], b: &[ManifestFile]) {
    assert_eq!(a.len(), b.len());
    for (x, y) in a.iter().zip(b.iter()) {
        assert_eq!(x.path, y.path);
        assert_eq!(x.manifest.version, y.manifest.version);
        assert_eq!(x.manifest.notes, y.manifest.notes);
        assert_eq!(format!("{:?}", x.manifest.platforms), format!("{:?}", y.manifest.platforms));
    }
}

#[test]
fn rerun_differs_only_in_date() {
    let a = build_release("3.1.0", &signed_all(), "n", "m", date(10)).unwrap();
    let b = build_release("3.1.0", &signed_all(), "n", "m", date(20)).unwrap();
    same_but_date(&a, &b);
    assert_eq!(a[0].manifest.pub_date, date(10));
    assert_eq!(b[0].manifest.pub_date, date(20));
}

#[test]
fn manifest_files_keep_given_notes() {
    let m = build_platforms("1.0.0", &signed_all()).unwrap();
    let files = manifest_files("1.0.0", "s".to_string(), "b".to_string(), date(5), m);
    assert_eq!(files.len(), 2);
    assert_eq!(files[0].manifest.notes, "s");
    assert_eq!(files[1].manifest.platforms.len(), 4);
    assert_eq!(files[0].manifest.platforms.len(), 4);
}
