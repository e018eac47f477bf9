use vstd::prelude::*;
use vstd::string::StrSliceExecFns;
use crate::errors::LauncherError;

verus! {

/// Where an inventory entry was discovered.
#[derive(Clone, Copy, Debug, PartialEq, Eq, Structural)]
pub enum Origin {
    /// Found as a version folder under the local versions root.
    Local,
    /// Listed by the remote release catalog.
    Remote,
}

/// One installable release, keyed by its identifier.
#[derive(Clone, Debug, PartialEq, Eq)]
pub struct Version {
    /// Unique key, e.g. a release id such as `1.20`.
    pub identifier: String,
    /// Provenance of the entry; informational, not persisted.
    pub origin: Origin,
    /// Raw text of the folder's descriptor file, once a caller has read it.
    /// Discovery never fills this: local entries are materialized lazily and
    /// remote entries carry only their identifier.
    pub descriptor: Option<String>,
}

/// What the scanner sees of one immediate child of the versions root: its
/// name, whether it is a directory, and the names of the plain files directly
/// inside it. The caller lists the disk and hands the listing over; any read
/// error aborts the listing before this type is ever built.
#[derive(Clone, Debug, PartialEq, Eq)]
pub struct FolderEntry {
    /// The folder's own name; a retained folder's name becomes the identifier.
    pub name: String,
    /// Whether the entry is a directory at all.
    pub is_dir: bool,
    /// Names of the regular files directly inside the entry.
    pub child_files: Vec<String>,
}

/// A field read out of one catalog entry: absent, present but not a string,
/// or the string it holds. Keeping the three cases apart lets the fetcher
/// tell a contract violation (a missing field) from a mere mismatch.
#[derive(Clone, Debug, PartialEq, Eq)]
pub enum RawField {
    /// The entry has no such field.
    Missing,
    /// The field is there but holds something other than text.
    NotText,
    /// The field holds this text.
    Text(String),
}

/// One entry of the remote catalog's `versions` array.
#[derive(Clone, Debug, PartialEq, Eq)]
pub struct ManifestEntry {
    /// The entry's `id` field.
    pub id: RawField,
    /// The entry's `type` field: the release classification, `release` for
    /// stable releases as opposed to snapshots, betas and alphas.
    pub kind: RawField,
}

/// The remote catalog document, reduced to what this layer reads of it:
/// its `versions` array, or `None` when the document has no such array.
#[derive(Clone, Debug, PartialEq, Eq)]
pub struct Manifest {
    /// The entries of the `versions` array, in document order.
    pub versions: Option<Vec<ManifestEntry>>,
}

/// A file name marks a descriptor when it ends in `.json` with a non-empty
/// stem before the dot.
pub open spec fn is_descriptor_name(name: Seq<char>) -> bool {
    let n = name.len() as int;
    &&& n > 5
    &&& name[n - 5] == '.'
    &&& name[n - 4] == 'j'
    &&& name[n - 3] == 's'
    &&& name[n - 2] == 'o'
    &&& name[n - 1] == 'n'
}

/// A folder counts as an installed version exactly when it is a directory
/// holding at least one descriptor file.
pub open spec fn folder_is_version(e: FolderEntry) -> bool {
    &&& e.is_dir
    &&& exists|k: int| 0 <= k < e.child_files@.len() && is_descriptor_name(e.child_files@[k]@)
}

/// The inventory entry made from one retained local folder.
pub open spec fn local_version_of(e: FolderEntry) -> Version {
    Version { identifier: e.name, origin: Origin::Local, descriptor: None }
}

/// What the local scan yields: one `Version` per retained folder, in listing
/// order.
pub open spec fn scan_spec(entries: Seq<FolderEntry>) -> Seq<Version>
    decreases entries.len(),
{
    if entries.len() == 0 {
        Seq::empty()
    } else if folder_is_version(entries.last()) {
        scan_spec(entries.drop_last()).push(local_version_of(entries.last()))
    } else {
        scan_spec(entries.drop_last())
    }
}

/// A catalog entry classified as a stable release: its `type` field is the
/// text `release`.
pub open spec fn is_release_entry(e: ManifestEntry) -> bool {
    e.kind matches RawField::Text(t) && t@ == "release"@
}

/// A catalog entry that breaks the manifest's shape contract: its `type`
/// field is missing, or it is classified as a release but carries no textual
/// `id`.
pub open spec fn entry_malformed(e: ManifestEntry) -> bool {
    ||| e.kind is Missing
    ||| (is_release_entry(e) && !(e.id is Text))
}

/// The manifest honours its shape contract: it has a `versions` array and no
/// entry in it is malformed.
pub open spec fn manifest_well_formed(m: Manifest) -> bool {
    &&& m.versions is Some
    &&& forall|i: int|
        0 <= i < m.versions->0@.len() ==> !entry_malformed(#[trigger] m.versions->0@[i])
}

/// An absent document is fine (the catalog was unreachable); a present one
/// must honour the shape contract.
pub open spec fn doc_well_formed(doc: Option<Manifest>) -> bool {
    doc matches Some(m) ==> manifest_well_formed(m)
}

/// What the remote fetch yields from the catalog entries: one `Version` per
/// release-classified entry, in document order.
pub open spec fn releases_spec(entries: Seq<ManifestEntry>) -> Seq<Version>
    decreases entries.len(),
{
    if entries.len() == 0 {
        Seq::empty()
    } else {
        let front = releases_spec(entries.drop_last());
        match (is_release_entry(entries.last()), entries.last().id) {
            (true, RawField::Text(id_text)) => front.push(
                Version { identifier: id_text, origin: Origin::Remote, descriptor: None },
            ),
            _ => front,
        }
    }
}

/// The remote half of the inventory for a given fetch outcome: nothing when
/// the catalog was unavailable, else the releases of its `versions` array.
pub open spec fn remote_spec(doc: Option<Manifest>) -> Seq<Version> {
    match doc {
        Option::None => Seq::empty(),
        Option::Some(m) => match m.versions {
            Option::Some(es) => releases_spec(es@),
            Option::None => Seq::empty(),
        },
    }
}

/// The reconciled inventory: always the local scan, and after it — only when
/// the network was reachable — the remote releases.
pub open spec fn inventory_spec(
    entries: Seq<FolderEntry>,
    reachable: bool,
    doc: Option<Manifest>,
) -> Seq<Version> {
    if reachable {
        scan_spec(entries) + remote_spec(doc)
    } else {
        scan_spec(entries)
    }
}

/// Whether this file name marks a descriptor file.
pub fn is_descriptor_file(name: &str) -> (r: bool)
    ensures
        r == is_descriptor_name(name@),
{
    let n: usize = name.unicode_len();
    if n < 6 {
        return false;
    }
    name.get_char(n - 5) == '.' && name.get_char(n - 4) == 'j' && name.get_char(n - 3) == 's'
        && name.get_char(n - 2) == 'o' && name.get_char(n - 1) == 'n'
}

/// Whether at least one of these file names marks a descriptor file.
fn has_descriptor_child(files: &Vec<String>) -> (r: bool)
    ensures
        r == exists|k: int| 0 <= k < files@.len() && is_descriptor_name(files@[k]@),
{
    let mut j: usize = 0;
    while j < files.len()
        invariant
            j <= files@.len(),
            forall|k: int| 0 <= k < j ==> !is_descriptor_name(#[trigger] files@[k]@),
        decreases files@.len() - j,
    {
        if is_descriptor_file(files[j].as_str()) {
            return true;
        }
        j += 1;
    }
    false
}

/// Scans one listing of the versions root: keeps every directory that holds
/// at least one descriptor file and yields one local `Version` per kept
/// folder, in listing order. Folders without a descriptor, and plain files,
/// contribute nothing.
pub fn scan_local(entries: &Vec<FolderEntry>) -> (r: Vec<Version>)
    ensures
        r@ == scan_spec(entries@),
{
    let mut out: Vec<Version> = Vec::new();
    let mut i: usize = 0;
    while i < entries.len()
        invariant
            i <= entries@.len(),
            out@ == scan_spec(entries@.subrange(0, i as int)),
        decreases entries@.len() - i,
    {
        let e = &entries[i];
        if e.is_dir && has_descriptor_child(&e.child_files) {
            out.push(Version { identifier: e.name.clone(), origin: Origin::Local, descriptor: None });
        }
        proof {
            let pre = entries@.subrange(0, i as int);
            let cur = entries@.subrange(0, i + 1);
            assert(cur.drop_last() =~= pre);
            assert(cur.last() == entries@[i as int]);
        }
        i += 1;
    }
    proof {
        assert(entries@.subrange(0, entries@.len() as int) =~= entries@);
    }
    out
}

/// Reads the releases out of the catalog's `versions` array: one remote
/// `Version` per release-classified entry, in document order. An entry with
/// no `type` field, or a release-classified entry with no textual `id`,
/// breaks the manifest's shape contract and aborts the whole read.
fn releases_from_entries(entries: &Vec<ManifestEntry>) -> (r: Result<Vec<Version>, LauncherError>)
    ensures
        r is Ok <==> (forall|k: int|
            0 <= k < entries@.len() ==> !entry_malformed(#[trigger] entries@[k])),
        r matches Ok(v) ==> v@ == releases_spec(entries@),
        r matches Err(e) ==> e == LauncherError::MalformedManifest,
{
    let release_text: String = "release".to_owned();
    let mut out: Vec<Version> = Vec::new();
    let mut i: usize = 0;
    while i < entries.len()
        invariant
            i <= entries@.len(),
            release_text@ == "release"@,
            out@ == releases_spec(entries@.subrange(0, i as int)),
            forall|k: int| 0 <= k < i ==> !entry_malformed(#[trigger] entries@[k]),
        decreases entries@.len() - i,
    {
        let e = &entries[i];
        match &e.kind {
            RawField::Missing => {
                proof {
                    assert(entry_malformed(entries@[i as int]));
                }
                return Err(LauncherError::MalformedManifest);
            },
            RawField::NotText => {},
            RawField::Text(t) => {
                if t.eq(&release_text) {
                    match &e.id {
                        RawField::Text(id_text) => {
                            out.push(
                                Version {
                                    identifier: id_text.clone(),
                                    origin: Origin::Remote,
                                    descriptor: None,
                                },
                            );
                        },
                        _ => {
                            proof {
                                assert(is_release_entry(entries@[i as int]));
                                assert(entry_malformed(entries@[i as int]));
                            }
                            return Err(LauncherError::MalformedManifest);
                        },
                    }
                }
            },
        }
        proof {
            let pre = entries@.subrange(0, i as int);
            let cur = entries@.subrange(0, i + 1);
            assert(cur.drop_last() =~= pre);
            assert(cur.last() == entries@[i as int]);
        }
        i += 1;
    }
    proof {
        assert(entries@.subrange(0, entries@.len() as int) =~= entries@);
    }
    Ok(out)
}

/// Reads the releases out of a fetched catalog document.
///
/// An absent document (the catalog was unreachable or gave nothing) yields an
/// empty list — graceful degradation, not an error. A present document must
/// carry a `versions` array whose entries all have a `type` field, and a
/// textual `id` on every release-classified entry; any violation is reported
/// as `MalformedManifest`, and exactly those violations are. On success the
/// result holds one remote `Version` per release-classified entry, in
/// document order.
pub fn fetch_releases(doc: &Option<Manifest>) -> (r: Result<Vec<Version>, LauncherError>)
    ensures
        r is Ok <==> doc_well_formed(*doc),
        r matches Ok(v) ==> v@ == remote_spec(*doc),
        r matches Err(e) ==> e == LauncherError::MalformedManifest,
{
    match doc {
        Option::None => Ok(Vec::new()),
        Option::Some(m) => match m.versions.as_ref() {
            Option::None => Err(LauncherError::MalformedManifest),
            Option::Some(entries) => releases_from_entries(entries),
        },
    }
}

/// Builds the reconciled inventory from one disk listing, one connectivity
/// probe outcome, and — when the probe succeeded — one fetched catalog
/// document.
///
/// The local scan always comes first and never depends on the network. When
/// unreachable, the result is exactly the local scan, in order, with no
/// remote entry. When reachable, the remote releases are appended after the
/// local entries; a malformed catalog document aborts the whole call. No
/// de-duplication is applied across the two origins.
pub fn build_inventory(
    entries: &Vec<FolderEntry>,
    reachable: bool,
    doc: &Option<Manifest>,
) -> (r: Result<Vec<Version>, LauncherError>)
    ensures
        r is Ok <==> (!reachable || doc_well_formed(*doc)),
        r matches Ok(v) ==> v@ == inventory_spec(entries@, reachable, *doc),
        r matches Err(e) ==> e == LauncherError::MalformedManifest,
        !reachable ==> (r matches Ok(v) && v@ == scan_spec(entries@)),
{
    let mut local = scan_local(entries);
    if reachable {
        match fetch_releases(doc) {
            Ok(mut remote) => {
                local.append(&mut remote);
                Ok(local)
            },
            Err(e) => Err(e),
        }
    } else {
        Ok(local)
    }
}

/// Every entry the local scan yields carries the `Local` origin.
pub proof fn lemma_scan_origins_local(entries: Seq<FolderEntry>)
    ensures
        forall|i: int|
            0 <= i < scan_spec(entries).len() ==> (#[trigger] scan_spec(entries)[i]).origin
                == Origin::Local,
    decreases entries.len(),
{
    if entries.len() > 0 {
        lemma_scan_origins_local(entries.drop_last());
    }
}

/// Every entry the remote fetch yields carries the `Remote` origin.
pub proof fn lemma_releases_origins_remote(entries: Seq<ManifestEntry>)
    ensures
        forall|i: int|
            0 <= i < releases_spec(entries).len() ==> (#[trigger] releases_spec(entries)[i]).origin
                == Origin::Remote,
    decreases entries.len(),
{
    if entries.len() > 0 {
        lemma_releases_origins_remote(entries.drop_last());
    }
}

/// A directory holding at least one descriptor file contributes exactly one
/// entry to the scan — whatever other files stand beside the descriptor.
pub proof fn lemma_scan_includes_version_folder(entries: Seq<FolderEntry>, e: FolderEntry)
    requires
        e.is_dir,
        exists|k: int| 0 <= k < e.child_files@.len() && is_descriptor_name(e.child_files@[k]@),
    ensures
        scan_spec(entries.push(e)) == scan_spec(entries).push(local_version_of(e)),
{
    assert(entries.push(e).drop_last() =~= entries);
    assert(entries.push(e).last() == e);
}

/// Wherever a valid version folder stands in the listing, the scan includes
/// the entry made from it.
pub proof fn lemma_scan_includes_each_version_folder(entries: Seq<FolderEntry>, i: int)
    requires
        0 <= i < entries.len(),
        folder_is_version(entries[i]),
    ensures
        scan_spec(entries).contains(local_version_of(entries[i])),
    decreases entries.len(),
{
    let v = local_version_of(entries[i]);
    if i == entries.len() - 1 {
        assert(scan_spec(entries).last() == v);
    } else {
        let sub = entries.drop_last();
        lemma_scan_includes_each_version_folder(sub, i);
        let j = choose|j: int| 0 <= j < scan_spec(sub).len() && scan_spec(sub)[j] == v;
        assert(scan_spec(entries)[j] == v);
    }
}

/// A folder with no descriptor file among its children leaves the scan
/// unchanged: it is excluded from the result.
pub proof fn lemma_scan_excludes_bare_folder(entries: Seq<FolderEntry>, e: FolderEntry)
    requires
        forall|k: int| 0 <= k < e.child_files@.len() ==> !is_descriptor_name(#[trigger] e.child_files@[k]@),
    ensures
        scan_spec(entries.push(e)) == scan_spec(entries),
{
    assert(entries.push(e).drop_last() =~= entries);
    assert(entries.push(e).last() == e);
}

/// With connectivity, the reconciled inventory keeps every locally-scanned
/// entry unchanged and in order ahead of every remote entry: local entries
/// always precede remote ones.
pub proof fn lemma_local_entries_precede_remote(entries: Seq<FolderEntry>, doc: Option<Manifest>)
    ensures
        scan_spec(entries).len() <= inventory_spec(entries, true, doc).len(),
        forall|i: int|
            0 <= i < scan_spec(entries).len() ==> #[trigger] inventory_spec(entries, true, doc)[i]
                == scan_spec(entries)[i],
        forall|i: int|
            0 <= i < scan_spec(entries).len() ==> (#[trigger] inventory_spec(entries, true, doc)[i]).origin
                == Origin::Local,
        forall|j: int|
            scan_spec(entries).len() <= j < inventory_spec(entries, true, doc).len()
                ==> (#[trigger] inventory_spec(entries, true, doc)[j]).origin == Origin::Remote,
{
    lemma_scan_origins_local(entries);
    match doc {
        Option::Some(m) => match m.versions {
            Option::Some(es) => {
                lemma_releases_origins_remote(es@);
            },
            Option::None => {},
        },
        Option::None => {},
    }
}

} // verus!
