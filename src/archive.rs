//! Reading the entries of a zip archive held in memory.
use vstd::prelude::*;
use crate::error::ApplyError;

verus! {

/// `std::io::Cursor`, the in-memory reader that an archive is opened on.
#[verifier::external_type_specification]
#[verifier::external_body]
#[verifier::reject_recursive_types(T)]
pub struct ExCursor<T>(std::io::Cursor<T>);

/// `zip::ZipArchive`, an opened archive; what it holds is `archive_entries`.
#[verifier::external_type_specification]
#[verifier::external_body]
#[verifier::reject_recursive_types(R)]
pub struct ExZipArchive<R>(zip::ZipArchive<R>);

/// `zip::result::ZipError`, which opening an archive fails with.
#[verifier::external_type_specification]
#[verifier::external_body]
pub struct ExZipError(zip::result::ZipError);

/// What one entry of an archive gives: `None` when it cannot be opened
/// (`ZipArchive::by_index_decrypt` with an empty password gives no file),
/// else its name and, unless reading it fails, its uncompressed content.
pub type EntryModel = Option<(Seq<char>, Option<Seq<u8>>)>;

/// Whether `zip::ZipArchive::new` accepts `bytes` as an archive.
pub uninterp spec fn zip_opens(bytes: Seq<u8>) -> bool;

/// The entries of the archive that `zip::ZipArchive::new` reads from
/// `bytes`, in the order of its central directory.
pub uninterp spec fn zip_entries(bytes: Seq<u8>) -> Seq<EntryModel>;

/// The entries that an opened archive holds, in order.
pub uninterp spec fn archive_entries(a: zip::ZipArchive<std::io::Cursor<Vec<u8>>>) -> Seq<
    EntryModel,
>;

/// Relies on `zip::ZipArchive::new` over `std::io::Cursor::new`: whether it
/// succeeds depends on the bytes alone, and on success the archive holds the
/// entries that the bytes describe.
#[verifier::external_body]
fn open_archive(bytes: Vec<u8>) -> (r: Result<
    zip::ZipArchive<std::io::Cursor<Vec<u8>>>,
    zip::result::ZipError,
>)
    ensures
        r is Ok <==> zip_opens(bytes@),
        r is Ok ==> archive_entries(r->Ok_0) == zip_entries(bytes@),
{
    zip::ZipArchive::new(std::io::Cursor::new(bytes))
}

/// Relies on `zip::ZipArchive::len`: the number of entries.
#[verifier::external_body]
fn entry_count(a: &zip::ZipArchive<std::io::Cursor<Vec<u8>>>) -> (r: usize)
    ensures
        r == archive_entries(*a).len(),
{
    a.len()
}

/// Relies on `zip::ZipArchive::by_index_decrypt` with an empty password and
/// `zip::read::ZipFile::name`: the name of entry `i`, if the entry opens.
/// Unlike `by_index`, this call does not panic on an unencrypted entry that
/// carries AES information. Reading moves the reader, not the entries.
#[verifier::external_body]
fn entry_name(a: &mut zip::ZipArchive<std::io::Cursor<Vec<u8>>>, i: usize) -> (r: Option<String>)
    requires
        i < archive_entries(*old(a)).len(),
    ensures
        archive_entries(*final(a)) == archive_entries(*old(a)),
        r is Some <==> archive_entries(*old(a))[i as int] is Some,
        r is Some ==> r->Some_0@ == archive_entries(*old(a))[i as int]->Some_0.0,
{
    match a.by_index_decrypt(i, b"") {
        Ok(Ok(f)) => Some(f.name().to_string()),
        _ => None,
    }
}

/// Relies on `zip::ZipArchive::by_index_decrypt` with an empty password and
/// `std::io::Read::read_to_end` on the entry: the uncompressed content of
/// entry `i`, if the entry opens and reads. Reading moves the reader, not
/// the entries.
#[verifier::external_body]
fn entry_content(a: &mut zip::ZipArchive<std::io::Cursor<Vec<u8>>>, i: usize) -> (r: Option<
    Vec<u8>,
>)
    requires
        i < archive_entries(*old(a)).len(),
    ensures
        archive_entries(*final(a)) == archive_entries(*old(a)),
        r is Some <==> (archive_entries(*old(a))[i as int] is Some && archive_entries(
            *old(a),
        )[i as int]->Some_0.1 is Some),
        r is Some ==> r->Some_0@ == archive_entries(*old(a))[i as int]->Some_0.1->Some_0,
{
    let mut f = match a.by_index_decrypt(i, b"") {
        Ok(Ok(f)) => f,
        _ => return None,
    };
    let mut buf: Vec<u8> = Vec::new();
    match std::io::Read::read_to_end(&mut f, &mut buf) {
        Ok(_) => Some(buf),
        Err(_) => None,
    }
}

/// An entry of an update archive: a directory marker when its name ends
/// with `/`, else a file with its content.
#[derive(Debug)]
pub struct ArchiveEntry {
    pub name: String,
    pub content: Vec<u8>,
}

/// A directory entry's name ends with a forward slash.
pub open spec fn is_dir_name(name: Seq<char>) -> bool {
    name.len() > 0 && name.last() == '/'
}

/// The entries read from an archive, in its order, up to the first one that
/// could not be read.
#[derive(Debug)]
pub struct LoadedArchive {
    pub entries: Vec<ArchiveEntry>,
    /// Why reading stopped before the end, if it did.
    pub stop: Option<ApplyError>,
}

impl ArchiveEntry {
    pub open spec fn view(&self) -> (Seq<char>, Seq<u8>) {
        (self.name@, self.content@)
    }
}

impl LoadedArchive {
    /// The name and content of each entry read.
    pub open spec fn entries_view(&self) -> Seq<(Seq<char>, Seq<u8>)> {
        self.entries@.map_values(|e: ArchiveEntry| e.view())
    }
}

/// An entry that the archive gives in full: it opens, and it is a
/// directory or its content reads.
pub open spec fn readable(e: EntryModel) -> bool {
    e is Some && (is_dir_name(e->Some_0.0) || e->Some_0.1 is Some)
}

/// The name and content kept of a readable entry: a directory keeps an
/// empty content.
pub open spec fn kept(e: EntryModel) -> (Seq<char>, Seq<u8>) {
    (
        e->Some_0.0,
        if is_dir_name(e->Some_0.0) {
            Seq::<u8>::empty()
        } else {
            e->Some_0.1->Some_0
        },
    )
}

/// `entries` are the readable entries that `all` begins with, up to the
/// first that is not readable; `stop` records why reading stopped there: an
/// entry that does not open, or a content that does not read.
pub open spec fn loaded_from(
    entries: Seq<(Seq<char>, Seq<u8>)>,
    stop: Option<ApplyError>,
    all: Seq<EntryModel>,
) -> bool {
    &&& entries.len() <= all.len()
    &&& forall|i: int|
        #![trigger entries[i]]
        0 <= i < entries.len() ==> (readable(all[i]) && entries[i] == kept(all[i]))
    &&& entries.len() == all.len() ==> stop is None
    &&& entries.len() < all.len() ==> !readable(all[entries.len() as int]) && stop == Some(
        if all[entries.len() as int] is None {
            ApplyError::EntryUnreadable
        } else {
            ApplyError::ContentWriteFailed
        },
    )
}

/// Whether the name of an entry marks a directory.
pub fn dir_name(name: &str) -> (r: bool)
    ensures
        r == is_dir_name(name@),
{
    let n: usize = name.unicode_len();
    n > 0 && name.get_char(n - 1) == '/'
}

/// Reads the entries of the zip archive in `bytes`: the name of each, and
/// the content of each file. Bytes that are no archive give
/// `ArchiveUnreadable`; reading stops at the first entry that does not open
/// (`EntryUnreadable`) or whose content does not read (`ContentWriteFailed`).
pub fn load_archive(bytes: Vec<u8>) -> (r: Result<LoadedArchive, ApplyError>)
    ensures
        r is Ok <==> zip_opens(bytes@),
        r is Err ==> r->Err_0 == ApplyError::ArchiveUnreadable,
        r is Ok ==> loaded_from(r->Ok_0.entries_view(), r->Ok_0.stop, zip_entries(bytes@)),
{
    let ghost all = zip_entries(bytes@);
    let mut a = match open_archive(bytes) {
        Ok(a) => a,
        Err(_) => {
            return Err(ApplyError::ArchiveUnreadable);
        },
    };
    let n: usize = entry_count(&a);
    let mut entries: Vec<ArchiveEntry> = Vec::new();
    let mut i: usize = 0;
    while i < n
        invariant
            archive_entries(a) == all,
            all == zip_entries(bytes@),
            zip_opens(bytes@),
            n == all.len(),
            i <= n,
            entries@.len() == i,
            forall|k: int| #![trigger all[k]] 0 <= k < i ==> readable(all[k]),
            forall|k: int| #![trigger entries@[k]] 0 <= k < i ==> entries@[k].view() == kept(all[k]),
        decreases n - i,
    {
        let name = match entry_name(&mut a, i) {
            Some(name) => name,
            None => {
                let r = LoadedArchive { entries, stop: Some(ApplyError::EntryUnreadable) };
                proof {
                    assert(r.entries_view().len() == i);
                    assert(all[i as int] is None);
                    assert forall|k: int| #![trigger r.entries_view()[k]] 0 <= k < i implies (readable(all[k]) && r.entries_view()[k] == kept(all[k])) by {
                        assert(r.entries_view()[k] == r.entries@[k].view());
                    }
                }
                return Ok(r);
            },
        };
        let content = if dir_name(name.as_str()) {
            Vec::new()
        } else {
            match entry_content(&mut a, i) {
                Some(content) => content,
                None => {
                    let r = LoadedArchive { entries, stop: Some(ApplyError::ContentWriteFailed) };
                    proof {
                        assert(r.entries_view().len() == i);
                        assert(!readable(all[i as int]));
                        assert forall|k: int| #![trigger r.entries_view()[k]] 0 <= k < i implies (readable(all[k]) && r.entries_view()[k] == kept(all[k])) by {
                            assert(r.entries_view()[k] == r.entries@[k].view());
                        }
                    }
                    return Ok(r);
                },
            }
        };
        let ghost e = all[i as int];
        proof {
            assert(e is Some && name@ == e->Some_0.0);
            assert(readable(e));
            assert((name@, content@) == kept(e));
        }
        let ghost prev = entries@;
        entries.push(ArchiveEntry { name, content });
        proof {
            assert(entries@[i as int].view() == kept(e));
            assert forall|k: int| #![trigger entries@[k]] 0 <= k < i + 1 implies entries@[k].view() == kept(all[k]) by {
                if k < i {
                    assert(entries@[k] == prev[k]);
                }
            }
        }
        i = i + 1;
    }
    let r = LoadedArchive { entries, stop: None };
    proof {
        assert forall|k: int| #![trigger r.entries_view()[k]] 0 <= k < n implies (readable(all[k]) && r.entries_view()[k] == kept(all[k])) by {
            assert(r.entries_view()[k] == r.entries@[k].view());
        }
    }
    Ok(r)
}

} // verus!
