//! Archives of a state directory: reading one, and where its entries go.

use crate::error::MigrationError;
use std::io::Cursor;
use std::io::Read;
use vstd::prelude::*;
use vstd::string::*;
use zip::read::ZipArchive;
use zip::result::ZipError;

verus! {

/// `zip::read::ZipArchive`, an archive opened over a reader. Nothing of its
/// inside is known here: what it holds is named by [`archive_entries`].
#[verifier::external_type_specification]
#[verifier::external_body]
#[verifier::reject_recursive_types(R)]
pub struct ExZipArchive<R>(ZipArchive<R>);

/// `zip::result::ZipError`, carried from the archive reader to the place
/// where it becomes an archive error. Nothing is read out of it.
#[verifier::external_type_specification]
#[verifier::external_body]
pub struct ExZipError(ZipError);

/// `std::io::Cursor`, the in-memory reader that an archive is opened over.
#[verifier::external_type_specification]
#[verifier::external_body]
#[verifier::reject_recursive_types(T)]
pub struct ExCursor<T>(Cursor<T>);

/// One entry of an archive, read out in full.
#[derive(Debug)]
pub struct ArchiveEntry {
    /// The name of the entry: its path, as the archive records it.
    pub name: String,
    /// The bytes of the entry, decompressed.
    pub contents: Vec<u8>,
}

/// What the archive holds: for each entry, in archive order, its name and its
/// bytes, or `None` where the entry cannot be read in full.
pub uninterp spec fn archive_entries(archive: ZipArchive<Cursor<Vec<u8>>>) -> Seq<
    Option<(Seq<char>, Seq<u8>)>,
>;

/// What `bytes` read as: the entries of the archive that they encode, or
/// `None` where they encode no archive that can be opened.
pub uninterp spec fn zip_reading(bytes: Seq<u8>) -> Option<Seq<Option<(Seq<char>, Seq<u8>)>>>;

/// Opens the archive that `bytes` encode, with `ZipArchive::new` on a cursor
/// over the bytes. The outcome depends on the bytes alone; it is what
/// [`zip_reading`] names.
#[verifier::external_body]
fn open_archive(bytes: Vec<u8>) -> (opened: Result<ZipArchive<Cursor<Vec<u8>>>, ZipError>)
    ensures
        match opened {
            Ok(archive) => zip_reading(bytes@) == Some(archive_entries(archive)),
            Err(_) => zip_reading(bytes@) is None,
        },
{
    ZipArchive::new(Cursor::new(bytes))
}

/// The number of entries, from `ZipArchive::len`.
#[verifier::external_body]
fn entry_count(archive: &ZipArchive<Cursor<Vec<u8>>>) -> (count: usize)
    ensures
        count == archive_entries(*archive).len(),
{
    archive.len()
}

/// Reads the entry at `index` out in full: `ZipArchive::by_index_decrypt`,
/// then `ZipFile::name` and `Read::read_to_end`. The password given is the
/// empty one, so an entry that asks for any other is an error here; unlike
/// `by_index`, this call answers such an entry and does not unwrap it.
/// What comes back is the entry that [`archive_entries`] names at `index`,
/// or an error where that entry cannot be read in full or `index` is past
/// the last entry. Reading moves the cursor and leaves the entries as they
/// are.
#[verifier::external_body]
fn read_entry(archive: &mut ZipArchive<Cursor<Vec<u8>>>, index: usize) -> (entry: Result<
    ArchiveEntry,
    ZipError,
>)
    ensures
        archive_entries(*final(archive)) == archive_entries(*old(archive)),
        index >= archive_entries(*old(archive)).len() ==> entry is Err,
        index < archive_entries(*old(archive)).len() ==> match entry {
            Ok(e) => archive_entries(*old(archive))[index as int] == Some((e.name@, e.contents@)),
            Err(_) => archive_entries(*old(archive))[index as int] is None,
        },
{
    let mut file = match archive.by_index_decrypt(index, &[])? {
        Ok(file) => file,
        Err(_) => return Err(ZipError::UnsupportedArchive(ZipError::PASSWORD_REQUIRED)),
    };
    let name = file.name().to_string();
    let mut contents = Vec::new();
    file.read_to_end(&mut contents)?;
    Ok(ArchiveEntry { name, contents })
}

/// The mathematical content of a listing: each entry as its name and bytes.
pub open spec fn listing_view(entries: Seq<Option<ArchiveEntry>>) -> Seq<
    Option<(Seq<char>, Seq<u8>)>,
> {
    Seq::new(
        entries.len(),
        |i: int|
            match entries[i] {
                Some(entry) => Some((entry.name@, entry.contents@)),
                None => None,
            },
    )
}

/// Reads the archive that `bytes` encode: every entry in archive order,
/// `None` standing for an entry that cannot be read in full. The result is
/// `None` where the bytes encode no archive that can be opened.
pub fn read_archive(bytes: Vec<u8>) -> (listing: Option<Vec<Option<ArchiveEntry>>>)
    ensures
        match listing {
            Some(entries) => zip_reading(bytes@) == Some(listing_view(entries@)),
            None => zip_reading(bytes@) is None,
        },
{
    match open_archive(bytes) {
        Err(_) => None,
        Ok(mut archive) => {
            let count: usize = entry_count(&archive);
            let ghost held = archive_entries(archive);
            let mut entries: Vec<Option<ArchiveEntry>> = Vec::new();
            let mut index: usize = 0;
            while index < count
                invariant
                    index <= count,
                    count == held.len(),
                    archive_entries(archive) == held,
                    entries@.len() == index,
                    listing_view(entries@) == held.take(index as int),
                decreases count - index,
            {
                let entry = match read_entry(&mut archive, index) {
                    Ok(entry) => Some(entry),
                    Err(_) => None,
                };
                let ghost before = entries@;
                entries.push(entry);
                assert(listing_view(entries@) =~= held.take(index + 1)) by {
                    assert(listing_view(before) == held.take(index as int));
                    assert forall|i: int| 0 <= i < index implies listing_view(entries@)[i]
                        == held[i] by {
                        assert(listing_view(before)[i] == held.take(index as int)[i]);
                    }
                }
                index += 1;
            }
            assert(held.take(count as int) =~= held);
            Some(entries)
        },
    }
}

/// A file to write: where, and what.
#[derive(Debug)]
pub struct ExtractedFile {
    pub path: String,
    pub contents: Vec<u8>,
}

/// The mathematical content of an [`ExtractedFile`].
pub struct ExtractedFileView {
    pub path: Seq<char>,
    pub contents: Seq<u8>,
}

impl View for ExtractedFile {
    type V = ExtractedFileView;

    open spec fn view(&self) -> ExtractedFileView {
        ExtractedFileView { path: self.path@, contents: self.contents@ }
    }
}

impl DeepView for ExtractedFile {
    type V = ExtractedFileView;

    open spec fn deep_view(&self) -> ExtractedFileView {
        self@
    }
}

/// What restoring an archive comes to: the files to write, in this order,
/// each replacing whatever is at its path; and, where the archive could not
/// be read to its end, the failure that follows the last of them.
#[derive(Debug)]
pub struct Restoration {
    pub files: Vec<ExtractedFile>,
    pub failure: Option<MigrationError>,
}

/// The mathematical content of a [`Restoration`].
pub struct RestorationView {
    pub files: Seq<ExtractedFileView>,
    pub failure: Option<MigrationError>,
}

impl View for Restoration {
    type V = RestorationView;

    open spec fn view(&self) -> RestorationView {
        RestorationView { files: self.files.deep_view(), failure: self.failure }
    }
}

/// The path of the entry `name` under the directory `dest`: `dest`, a
/// separator unless `dest` is empty or ends in one, then `name`. A name that
/// starts at the root is not placed under `dest`: it stands as it is.
pub open spec fn joined(dest: Seq<char>, name: Seq<char>) -> Seq<char> {
    if name.len() > 0 && name[0] == '/' {
        name
    } else if dest.len() == 0 || dest.last() == '/' {
        dest + name
    } else {
        dest + seq!['/'] + name
    }
}

/// The path at which the entry `name` is extracted under `dest`.
pub fn entry_destination(dest: &str, name: &str) -> (path: String)
    ensures
        path@ == joined(dest@, name@),
{
    let name_len: usize = name.unicode_len();
    if name_len > 0 && name.get_char(0) == '/' {
        return name.to_owned();
    }
    let dest_len: usize = dest.unicode_len();
    let mut path = dest.to_owned();
    if dest_len > 0 && dest.get_char(dest_len - 1) != '/' {
        proof {
            reveal_strlit("/");
        }
        path.append("/");
        assert("/"@ =~= seq!['/']);
    }
    path.append(name);
    path
}

/// How many entries can be read before the first that cannot.
pub open spec fn readable_count(entries: Seq<Option<(Seq<char>, Seq<u8>)>>) -> nat
    decreases entries.len(),
{
    if entries.len() == 0 || entries.first() is None {
        0
    } else {
        1 + readable_count(entries.drop_first())
    }
}

/// The file that the entry `entry` becomes under `dest`.
pub open spec fn placed(dest: Seq<char>, entry: (Seq<char>, Seq<u8>)) -> ExtractedFileView {
    ExtractedFileView { path: joined(dest, entry.0), contents: entry.1 }
}

/// What restoring comes to, for an archive that reads as `reading`, into the
/// directory `dest`.
///
/// Entries are extracted one by one, in archive order, each to its path under
/// `dest`. The first entry that cannot be read ends the restoration with an
/// archive error, after the entries before it were extracted; so does an
/// archive that cannot be opened, before anything is extracted.
pub open spec fn restoration(
    reading: Option<Seq<Option<(Seq<char>, Seq<u8>)>>>,
    dest: Seq<char>,
) -> RestorationView {
    match reading {
        None => RestorationView { files: Seq::empty(), failure: Some(MigrationError::Archive) },
        Some(entries) => RestorationView {
            files: Seq::new(readable_count(entries), |i: int| placed(dest, entries[i]->0)),
            failure: if readable_count(entries) < entries.len() {
                Some(MigrationError::Archive)
            } else {
                None
            },
        },
    }
}

/// The readable entries before the first unreadable one are counted exactly:
/// `k` is the count when the first `k` entries can be read and the entry
/// after them, if there is one, cannot.
pub proof fn lemma_readable_count(entries: Seq<Option<(Seq<char>, Seq<u8>)>>, k: nat)
    requires
        k <= entries.len(),
        forall|i: int| 0 <= i < k ==> entries[i] is Some,
        k < entries.len() ==> entries[k as int] is None,
    ensures
        readable_count(entries) == k,
    decreases k,
{
    if k > 0 {
        let rest = entries.drop_first();
        assert forall|i: int| 0 <= i < k - 1 implies rest[i] is Some by {
            assert(rest[i] == entries[i + 1]);
        }
        lemma_readable_count(rest, (k - 1) as nat);
    }
}

/// Places the entries of a listing under `dest`: exactly [`restoration`] of
/// an archive that reads as the listing.
pub fn place_entries(entries: Vec<Option<ArchiveEntry>>, dest: &str) -> (plan: Restoration)
    ensures
        plan@ == restoration(Some(listing_view(entries@)), dest@),
{
    let ghost listing = listing_view(entries@);
    let mut files: Vec<ExtractedFile> = Vec::new();
    let mut failure: Option<MigrationError> = None;
    for entry in it: entries
        invariant
            it.seq() == entries@,
            listing == listing_view(entries@),
            files@.len() <= it.index(),
            forall|j: int| 0 <= j < files@.len() ==> listing[j] is Some,
            files.deep_view() == Seq::new(
                files@.len(),
                |j: int| placed(dest@, listing[j]->0),
            ),
            failure is None ==> files@.len() == it.index(),
            failure is Some ==> failure == Some(MigrationError::Archive) && files@.len()
                < it.index() && listing[files@.len() as int] is None,
    {
        let ghost at = it.index();
        assert(entry == entries@[at]);
        match entry {
            Some(entry) => {
                if failure.is_none() {
                    let ghost before = files.deep_view();
                    let path = entry_destination(dest, entry.name.as_str());
                    let file = ExtractedFile { path, contents: entry.contents };
                    assert(file@ == placed(dest@, listing[at]->0));
                    files.push(file);
                    assert(files.deep_view() =~= before.push(file@));
                    assert(files.deep_view() =~= Seq::new(
                        files@.len(),
                        |j: int| placed(dest@, listing[j]->0),
                    ));
                }
            },
            None => {
                if failure.is_none() {
                    failure = Some(MigrationError::Archive);
                }
            },
        }
    }
    proof {
        lemma_readable_count(listing, files@.len() as nat);
    }
    Restoration { files, failure }
}

/// A directory tree: files by their paths, each path relative and used once.
pub open spec fn is_tree(tree: Seq<(Seq<char>, Seq<u8>)>) -> bool {
    &&& forall|i: int| 0 <= i < tree.len() ==> is_relative(#[trigger] tree[i].0)
    &&& forall|i: int, j: int|
        0 <= i < tree.len() && 0 <= j < tree.len() && i != j ==> #[trigger] tree[i].0
            != #[trigger] tree[j].0
}

/// `name` does not start at the root.
pub open spec fn is_relative(name: Seq<char>) -> bool {
    name.len() == 0 || name[0] != '/'
}

/// The listing of an archive that holds exactly the files of `tree`, each
/// readable.
pub open spec fn listing_of(tree: Seq<(Seq<char>, Seq<u8>)>) -> Seq<Option<(Seq<char>, Seq<u8>)>> {
    Seq::new(tree.len(), |i: int| Some(tree[i]))
}

/// The directory that results from writing `files` in order into the
/// directory `before`, each file replacing whatever was at its path. A
/// directory is the map from the paths of its files to their bytes.
pub open spec fn directory_after(
    before: Map<Seq<char>, Seq<u8>>,
    files: Seq<ExtractedFileView>,
) -> Map<Seq<char>, Seq<u8>>
    decreases files.len(),
{
    if files.len() == 0 {
        before
    } else {
        directory_after(before, files.drop_last()).insert(files.last().path, files.last().contents)
    }
}

/// Under one directory, two relative names lead to one path only when they
/// are one name.
pub proof fn lemma_joined_injective(dest: Seq<char>, a: Seq<char>, b: Seq<char>)
    requires
        is_relative(a),
        is_relative(b),
        joined(dest, a) == joined(dest, b),
    ensures
        a == b,
{
    let prefix = if dest.len() == 0 || dest.last() == '/' {
        dest
    } else {
        dest + seq!['/']
    };
    assert(joined(dest, a) =~= prefix + a);
    assert(joined(dest, b) =~= prefix + b);
    assert((prefix + a).subrange(prefix.len() as int, (prefix + a).len() as int) =~= a);
    assert((prefix + b).subrange(prefix.len() as int, (prefix + b).len() as int) =~= b);
}

/// A file that no later file replaces is in the directory as it was written.
pub proof fn lemma_written_stays(
    before: Map<Seq<char>, Seq<u8>>,
    files: Seq<ExtractedFileView>,
    i: int,
)
    requires
        0 <= i < files.len(),
        forall|j: int| i < j < files.len() ==> files[j].path != files[i].path,
    ensures
        directory_after(before, files).contains_key(files[i].path),
        directory_after(before, files)[files[i].path] == files[i].contents,
    decreases files.len(),
{
    if i < files.len() - 1 {
        let earlier = files.drop_last();
        assert(earlier[i] == files[i]);
        assert forall|j: int| i < j < earlier.len() implies earlier[j].path != earlier[i].path by {
            assert(earlier[j] == files[j]);
        }
        lemma_written_stays(before, earlier, i);
        assert(files.last().path != files[i].path);
    }
}

/// A path that no file is written to is left as it was.
pub proof fn lemma_unwritten_stays(
    before: Map<Seq<char>, Seq<u8>>,
    files: Seq<ExtractedFileView>,
    path: Seq<char>,
)
    requires
        forall|j: int| 0 <= j < files.len() ==> files[j].path != path,
    ensures
        directory_after(before, files).contains_key(path) == before.contains_key(path),
        before.contains_key(path) ==> directory_after(before, files)[path] == before[path],
    decreases files.len(),
{
    if files.len() > 0 {
        let earlier = files.drop_last();
        assert forall|j: int| 0 <= j < earlier.len() implies earlier[j].path != path by {
            assert(earlier[j] == files[j]);
        }
        lemma_unwritten_stays(before, earlier, path);
        assert(files.last().path != path);
    }
}

/// The paths that the files of `tree` have under `dest`.
pub open spec fn paths_under(dest: Seq<char>, tree: Seq<(Seq<char>, Seq<u8>)>) -> Set<Seq<char>> {
    Set::new(|path: Seq<char>| exists|i: int| 0 <= i < tree.len() && joined(dest, tree[i].0) == path)
}

/// The directory `before`, after an archive that reads as exactly the files
/// of `tree` was restored into it under `dest`.
pub open spec fn restored(
    before: Map<Seq<char>, Seq<u8>>,
    tree: Seq<(Seq<char>, Seq<u8>)>,
    dest: Seq<char>,
) -> Map<Seq<char>, Seq<u8>> {
    directory_after(before, restoration(Some(listing_of(tree)), dest).files)
}

/// Restoring an archive of a directory tree gives the tree back: restoring
/// an archive that reads as exactly the files of `tree` into `dest` fails
/// nowhere, writes one file per file of the tree, and leaves the directory
/// with every file of the tree at its own relative path under `dest`, byte
/// for byte, and with every other path as it was before.
pub proof fn lemma_restore_round_trip(
    tree: Seq<(Seq<char>, Seq<u8>)>,
    dest: Seq<char>,
    before: Map<Seq<char>, Seq<u8>>,
)
    requires
        is_tree(tree),
    ensures
        restoration(Some(listing_of(tree)), dest).failure is None,
        restoration(Some(listing_of(tree)), dest).files.len() == tree.len(),
        forall|i: int|
            0 <= i < tree.len() ==> restored(before, tree, dest).contains_key(
                #[trigger] joined(dest, tree[i].0),
            ) && restored(before, tree, dest)[joined(dest, tree[i].0)] == tree[i].1,
        forall|path: Seq<char>|
            !paths_under(dest, tree).contains(path) ==> (#[trigger] restored(
                before,
                tree,
                dest,
            ).contains_key(path) == before.contains_key(path)),
        forall|path: Seq<char>|
            !paths_under(dest, tree).contains(path) && before.contains_key(path) ==> #[trigger] restored(
                before,
                tree,
                dest,
            )[path] == before[path],
{
    let listing = listing_of(tree);
    lemma_readable_count(listing, tree.len());
    let plan = restoration(Some(listing), dest);
    let after = restored(before, tree, dest);
    assert forall|i: int| 0 <= i < tree.len() implies plan.files[i] == placed(dest, tree[i]) by {
        assert(listing[i] == Some(tree[i]));
    }
    assert forall|i: int| 0 <= i < tree.len() implies after.contains_key(
        #[trigger] joined(dest, tree[i].0),
    ) && after[joined(dest, tree[i].0)] == tree[i].1 by {
        assert forall|j: int| i < j < plan.files.len() implies plan.files[j].path
            != plan.files[i].path by {
            if plan.files[j].path == plan.files[i].path {
                lemma_joined_injective(dest, tree[i].0, tree[j].0);
            }
        }
        lemma_written_stays(before, plan.files, i);
    }
    assert forall|path: Seq<char>| !paths_under(dest, tree).contains(path) implies (
    #[trigger] after.contains_key(path) == before.contains_key(path)) by {
        assert forall|j: int| 0 <= j < plan.files.len() implies plan.files[j].path != path by {
            assert(plan.files[j] == placed(dest, tree[j]));
        }
        lemma_unwritten_stays(before, plan.files, path);
    }
    assert forall|path: Seq<char>|
        !paths_under(dest, tree).contains(path) && before.contains_key(path) implies #[trigger] after[path]
        == before[path] by {
        assert forall|j: int| 0 <= j < plan.files.len() implies plan.files[j].path != path by {
            assert(plan.files[j] == placed(dest, tree[j]));
        }
        lemma_unwritten_stays(before, plan.files, path);
    }
}

} // verus!
