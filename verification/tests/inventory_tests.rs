use launcher_inventory::errors::LauncherError;
use launcher_inventory::inventory::build_inventory;
use launcher_inventory::inventory::fetch_releases;
use launcher_inventory::inventory::is_descriptor_file;
use launcher_inventory::inventory::scan_local;
use launcher_inventory::inventory::FolderEntry;
use launcher_inventory::inventory::Manifest;
use launcher_inventory::inventory::ManifestEntry;
use launcher_inventory::inventory::Origin;
use launcher_inventory::inventory::RawField;
use launcher_inventory::inventory::Version;

fn folder(name: &str, is_dir: bool, files: &[&str]) -> FolderEntry {
    FolderEntry {
        name: name.to_string(),
        is_dir,
        child_files: files.iter().map(|f| f.to_string()).collect(),
    }
}

fn entry(id: RawField, kind: RawField) -> ManifestEntry {
    ManifestEntry { id, kind }
}

fn text(s: &str) -> RawField {
    RawField::Text(s.to_string())
}

fn local(id: &str) -> Version {
    Version { identifier: id.to_string(), origin: Origin::Local, descriptor: None }
}

fn remote(id: &str) -> Version {
    Version { identifier: id.to_string(), origin: Origin::Remote, descriptor: None }
}

#[test]
fn descriptor_file_names() {
    assert!(is_descriptor_file("a.json"));
    assert!(is_descriptor_file("1.20.json"));
    assert!(!is_descriptor_file(".json"));
    assert!(!is_descriptor_file("json"));
    assert!(!is_descriptor_file("a.txt"));
    assert!(!is_descriptor_file("a.jsonx"));
    assert!(!is_descriptor_file(""));
}

#[test]
fn scan_keeps_one_version_per_descriptor_folder() {
    // A valid folder yields exactly one entry, whatever extra files it holds.
    let entries = vec![
        folder("1.20", true, &["1.20.json", "1.20.jar", "notes.txt"]),
        folder("1.19", true, &["1.19.json"]),
    ];
    let scanned = scan_local(&entries);
    assert_eq!(scanned, vec![local("1.20"), local("1.19")]);
}

#[test]
fn scan_excludes_folder_without_descriptor() {
    let entries = vec![
        folder("broken", true, &["readme.txt", "data.bin"]),
        folder("empty", true, &[]),
        folder("1.20", true, &["1.20.json"]),
    ];
    let scanned = scan_local(&entries);
    assert_eq!(scanned, vec![local("1.20")]);
}

#[test]
fn scan_excludes_plain_files() {
    let entries = vec![folder("stray.json", false, &[]), folder("1.20", true, &["1.20.json"])];
    let scanned = scan_local(&entries);
    assert_eq!(scanned, vec![local("1.20")]);
}

#[test]
fn scan_of_empty_listing_is_empty() {
    let scanned = scan_local(&Vec::new());
    assert!(scanned.is_empty());
}

#[test]
fn fetch_keeps_only_release_entries() {
    // A release and a snapshot: exactly the release's id comes back.
    let manifest = Manifest {
        versions: Some(vec![
            entry(text("1.20"), text("release")),
            entry(text("1.20-pre1"), text("snapshot")),
        ]),
    };
    let releases = fetch_releases(&Some(manifest)).unwrap();
    assert_eq!(releases, vec![remote("1.20")]);
}

#[test]
fn fetch_of_absent_document_is_empty() {
    let releases = fetch_releases(&None).unwrap();
    assert!(releases.is_empty());
}

#[test]
fn fetch_without_versions_array_is_malformed() {
    let manifest = Manifest { versions: None };
    let r = fetch_releases(&Some(manifest));
    assert_eq!(r, Err(LauncherError::MalformedManifest));
}

#[test]
fn fetch_with_missing_type_field_is_malformed() {
    let manifest = Manifest {
        versions: Some(vec![
            entry(text("1.20"), text("release")),
            entry(text("1.19"), RawField::Missing),
        ]),
    };
    let r = fetch_releases(&Some(manifest));
    assert_eq!(r, Err(LauncherError::MalformedManifest));
}

#[test]
fn fetch_with_textless_id_on_release_is_malformed() {
    let manifest = Manifest {
        versions: Some(vec![entry(RawField::NotText, text("release"))]),
    };
    let r = fetch_releases(&Some(manifest));
    assert_eq!(r, Err(LauncherError::MalformedManifest));

    let manifest = Manifest {
        versions: Some(vec![entry(RawField::Missing, text("release"))]),
    };
    let r = fetch_releases(&Some(manifest));
    assert_eq!(r, Err(LauncherError::MalformedManifest));
}

#[test]
fn fetch_skips_entry_with_textless_type() {
    // A present but non-textual type field is a mismatch, not a violation.
    let manifest = Manifest {
        versions: Some(vec![
            entry(text("1.20"), RawField::NotText),
            entry(text("1.19"), text("release")),
        ]),
    };
    let releases = fetch_releases(&Some(manifest)).unwrap();
    assert_eq!(releases, vec![remote("1.19")]);
}

#[test]
fn offline_inventory_is_exactly_the_local_scan() {
    let entries = vec![
        folder("1.20", true, &["1.20.json"]),
        folder("1.19", true, &["1.19.json"]),
    ];
    // Even a malformed document must be ignored when unreachable.
    let doc = Some(Manifest { versions: None });
    let inventory = build_inventory(&entries, false, &doc).unwrap();
    assert_eq!(inventory, scan_local(&entries));
    assert!(inventory.iter().all(|v| v.origin == Origin::Local));
}

#[test]
fn online_inventory_lists_local_before_remote() {
    let entries = vec![folder("1.19", true, &["1.19.json"])];
    let doc = Some(Manifest {
        versions: Some(vec![
            entry(text("1.20"), text("release")),
            entry(text("1.19"), text("release")),
        ]),
    });
    let inventory = build_inventory(&entries, true, &doc).unwrap();
    // Local first, then the remote releases in document order; the shared
    // identifier 1.19 is deliberately not de-duplicated.
    assert_eq!(inventory, vec![local("1.19"), remote("1.20"), remote("1.19")]);
}

#[test]
fn online_inventory_with_malformed_document_fails() {
    let entries = vec![folder("1.19", true, &["1.19.json"])];
    let doc = Some(Manifest { versions: None });
    let r = build_inventory(&entries, true, &doc);
    assert_eq!(r, Err(LauncherError::MalformedManifest));
}

#[test]
fn online_inventory_with_absent_document_is_local_only() {
    let entries = vec![folder("1.19", true, &["1.19.json"])];
    let inventory = build_inventory(&entries, true, &None).unwrap();
    assert_eq!(inventory, vec![local("1.19")]);
}
