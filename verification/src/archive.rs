//! The archive reader: a zip container held in memory, read entry by entry.
//!
//! Parsing and decompression are the work of the `zip` crate. What this
//! module states of it is not proved here: it is written down, item by item,
//! in the contracts of the private functions at the end of the file.

use crate::text::text_of;
use std::io::Read;
use vstd::prelude::*;

verus! {

/// `zip::ZipArchive`, the reader of the `zip` crate. Nothing is known of what
/// is inside a value of it but what [`zip_entries`] names.
#[verifier::external_type_specification]
#[verifier::external_body]
#[verifier::reject_recursive_types(R)]
pub struct ExZipArchive<R>(zip::ZipArchive<R>);

/// `std::io::Cursor`, which lets the reader seek in the bytes of the
/// container. It is only carried through.
#[verifier::external_type_specification]
#[verifier::external_body]
#[verifier::reject_recursive_types(T)]
pub struct ExCursor<T>(std::io::Cursor<T>);

/// `zip::result::ZipError`, the error of the `zip` crate. It is only carried
/// through, and its message kept in [`CorruptArchive`].
#[verifier::external_type_specification]
#[verifier::external_body]
pub struct ExZipError(zip::result::ZipError);

/// What an archive in memory holds, entry by entry in the order of the
/// archive: the name of the entry, the name again where the `zip` crate
/// judges it safe to use as a path, and the entry's bytes after
/// decompression. An entry that cannot be read stands as `None`.
pub uninterp spec fn zip_entries(archive: zip::ZipArchive<std::io::Cursor<Vec<u8>>>) -> Seq<
    Option<(Seq<char>, Option<Seq<char>>, Seq<u8>)>,
>;

/// The names of the entries of an archive in memory, entry by entry in the
/// order of the archive, whether or not the entry can be read.
pub uninterp spec fn zip_names(archive: zip::ZipArchive<std::io::Cursor<Vec<u8>>>) -> Seq<
    Seq<char>,
>;

/// The names of the entries that the directory of a zip container lists, in
/// the order of the directory, or `None` where the `zip` crate cannot parse
/// the directory.
pub uninterp spec fn zip_directory(source: Seq<u8>) -> Option<Seq<Seq<char>>>;

/// Whether an archive holds the entries that a directory names: as many as
/// there are names, and each one that can be read under its name.
pub open spec fn lists(
    entries: Seq<Option<(Seq<char>, Option<Seq<char>>, Seq<u8>)>>,
    names: Seq<Seq<char>>,
) -> bool {
    &&& entries.len() == names.len()
    &&& forall|i: int|
        0 <= i < entries.len() ==> ((#[trigger] entries[i]) matches Some(record) ==> record.0
            == names[i])
}

/// The archive, or one of its entries, cannot be read: the container is no
/// zip archive, is damaged, or uses a feature that cannot be read here.
#[derive(Debug, Clone, PartialEq, Eq)]
pub struct CorruptArchive {
    /// The name of the entry that cannot be read. There is none where the
    /// archive as a whole cannot be read, or where the record of the entry
    /// is damaged so that its name cannot be had.
    pub entry: Option<String>,
    /// What the archive reader found.
    pub detail: String,
}

/// One entry of an archive.
#[derive(Debug, Clone, PartialEq, Eq)]
pub struct ArchiveEntry {
    /// The path of the entry as the archive gives it.
    pub raw_path: String,
    /// Whether the archive reader judges the path safe: it holds no NUL, is
    /// not absolute and does not lead out of the directory it starts in.
    pub enclosed: bool,
    /// The bytes of the entry.
    pub content: Vec<u8>,
}

/// An entry of an archive, as plain values.
pub struct EntryModel {
    pub raw_path: Seq<char>,
    pub enclosed: bool,
    pub content: Seq<u8>,
}

/// Whether a path names a directory: it ends in the path separator.
pub open spec fn names_directory(raw_path: Seq<char>) -> bool {
    raw_path.len() > 0 && raw_path.last() == '/'
}

impl View for ArchiveEntry {
    type V = EntryModel;

    open spec fn view(&self) -> EntryModel {
        EntryModel { raw_path: self.raw_path@, enclosed: self.enclosed, content: self.content@ }
    }
}

impl ArchiveEntry {
    /// Whether the entry is a directory.
    pub fn is_directory(&self) -> (directory: bool)
        ensures
            directory == names_directory(self.raw_path@),
    {
        let n = self.raw_path.as_str().unicode_len();
        n > 0 && self.raw_path.as_str().get_char(n - 1) == '/'
    }
}

/// The entry that the reader's record of it stands for.
pub open spec fn entry_model(record: (Seq<char>, Option<Seq<char>>, Seq<u8>)) -> EntryModel {
    EntryModel { raw_path: record.0, enclosed: record.1 is Some, content: record.2 }
}

/// A zip archive that was opened from bytes in memory.
pub struct Archive {
    inner: zip::ZipArchive<std::io::Cursor<Vec<u8>>>,
}

impl Archive {
    /// The entries of the archive in the order in which it stores them. An
    /// entry that cannot be read stands as `None`.
    pub closed spec fn entries(&self) -> Seq<Option<EntryModel>> {
        Seq::new(
            zip_entries(self.inner).len(),
            |i: int|
                match zip_entries(self.inner)[i] {
                    Some(record) => Some(entry_model(record)),
                    None => None,
                },
        )
    }

    /// The names of the entries in the order in which the archive stores
    /// them.
    pub closed spec fn names(&self) -> Seq<Seq<char>> {
        zip_names(self.inner)
    }

    /// Opens the archive that `source` holds.
    ///
    /// Fails where, and only where, the directory of the container cannot be
    /// parsed. The archive has one entry for each name of the directory, and
    /// each entry that can be read goes by its name there.
    pub fn open(source: Vec<u8>) -> (opened: Result<Archive, CorruptArchive>)
        ensures
            match opened {
                Ok(archive) => zip_directory(source@) == Some(archive.names())
                    && archive.entries().len() == archive.names().len() && forall|i: int|
                    0 <= i < archive.names().len() ==> ((#[trigger] archive.entries()[i])
                        matches Some(entry) ==> entry.raw_path == archive.names()[i]),
                Err(error) => zip_directory(source@) is None && error.entry is None,
            },
    {
        match open_zip(source) {
            Ok(inner) => Ok(Archive { inner }),
            Err(error) => Err(CorruptArchive { entry: None, detail: zip_message(error) }),
        }
    }

    /// The number of entries.
    pub fn len(&self) -> (count: usize)
        ensures
            count == self.entries().len(),
    {
        zip_len(&self.inner)
    }

    /// Reads the entry at `index`.
    ///
    /// The archive holds the same entries afterwards as before. Where the
    /// entry cannot be read, the error names the entry as far as its name
    /// can be had.
    pub fn entry_at(&mut self, index: usize) -> (read: Result<ArchiveEntry, CorruptArchive>)
        requires
            index < old(self).entries().len(),
        ensures
            final(self).entries() == old(self).entries(),
            final(self).names() == old(self).names(),
            match read {
                Ok(entry) => old(self).entries()[index as int] == Some(entry@),
                Err(error) => old(self).entries()[index as int] is None && (error.entry
                    matches Some(name) ==> index < old(self).names().len() && name@ == old(
                    self,
                ).names()[index as int]),
            },
    {
        match zip_read(&mut self.inner, index) {
            Ok((raw_path, enclosed, content)) => Ok(
                ArchiveEntry { raw_path, enclosed: enclosed.is_some(), content },
            ),
            Err(error) => {
                let entry = zip_name(&mut self.inner, index);
                Err(CorruptArchive { entry, detail: zip_message(error) })
            },
        }
    }
}

/// The root prefix of an archive: the path of its first entry, which is
/// the record of the directory that every other entry lies in. There is none
/// where the archive is empty or its first entry cannot be read. The archive
/// itself is not changed.
pub fn root_prefix(archive: &mut Archive) -> (prefix: Option<String>)
    ensures
        final(archive).entries() == old(archive).entries(),
        final(archive).names() == old(archive).names(),
        match prefix {
            Some(path) => old(archive).entries().len() > 0 && old(archive).entries()[0] is Some
                && path@ == old(archive).entries()[0]->0.raw_path,
            None => old(archive).entries().len() == 0 || old(archive).entries()[0] is None,
        },
{
    if archive.len() == 0 {
        return None;
    }
    match archive.entry_at(0) {
        Ok(first) => Some(first.raw_path),
        Err(_) => None,
    }
}

/// `zip::ZipArchive::new` on a cursor over the bytes.
///
/// Claimed: whether the call succeeds, and which names the archive lists,
/// depends on the bytes alone; the names of the archive are those of the
/// container's directory, the archive has one entry for each of them, and
/// an entry that can be read is read under the name that the directory
/// gives it.
#[verifier::external_body]
fn open_zip(source: Vec<u8>) -> (opened: Result<
    zip::ZipArchive<std::io::Cursor<Vec<u8>>>,
    zip::result::ZipError,
>)
    ensures
        match opened {
            Ok(archive) => zip_directory(source@) == Some(zip_names(archive)) && lists(
                zip_entries(archive),
                zip_names(archive),
            ),
            Err(_) => zip_directory(source@) is None,
        },
{
    zip::ZipArchive::new(std::io::Cursor::new(source))
}

/// `zip::ZipArchive::len`: the number of entries that the archive's
/// directory lists.
#[verifier::external_body]
fn zip_len(archive: &zip::ZipArchive<std::io::Cursor<Vec<u8>>>) -> (count: usize)
    ensures
        count == zip_entries(*archive).len(),
{
    archive.len()
}

/// `zip::ZipArchive::by_index_decrypt` with an empty password, then
/// `ZipFile::name`, `ZipFile::enclosed_name` and `Read::read_to_end` on the
/// entry it hands out.
///
/// Claimed: the call reads the entry at `index` and leaves the archive's
/// entries as they were; reading the same entry again gives the same; it
/// answers with the entry's name, the name as a path where `enclosed_name`
/// accepts it, and all bytes of the entry; where the entry is missing, of an
/// unknown compression method, damaged, or encrypted with a password other
/// than the empty one, it answers with an error.
#[verifier::external_body]
fn zip_read(archive: &mut zip::ZipArchive<std::io::Cursor<Vec<u8>>>, index: usize) -> (read: Result<
    (String, Option<String>, Vec<u8>),
    zip::result::ZipError,
>)
    ensures
        zip_entries(*final(archive)) == zip_entries(*old(archive)),
        zip_names(*final(archive)) == zip_names(*old(archive)),
        index >= zip_entries(*old(archive)).len() ==> read is Err,
        index < zip_entries(*old(archive)).len() ==> match read {
            Ok((name, enclosed, content)) => zip_entries(*old(archive))[index as int] == Some(
                (name@, text_of(enclosed), content@),
            ),
            Err(_) => zip_entries(*old(archive))[index as int] is None,
        },
{
    let mut file = match archive.by_index_decrypt(index, &[])? {
        Ok(file) => file,
        Err(_) => {
            let reason = zip::result::ZipError::PASSWORD_REQUIRED;
            return Err(zip::result::ZipError::UnsupportedArchive(reason));
        },
    };
    let name = file.name().to_string();
    let enclosed = file.enclosed_name().map(|path| path.to_string_lossy().into_owned());
    let mut content = Vec::new();
    file.read_to_end(&mut content)?;
    Ok((name, enclosed, content))
}

/// `zip::ZipArchive::by_index_raw`, then `ZipFile::name` on the entry it
/// hands out: the name of the entry at `index`, without reading what the
/// entry holds.
///
/// Claimed: the call leaves the archive's entries and names as they were;
/// a name that it answers with is the name that the archive lists at
/// `index`. Nothing is claimed of when it answers: there is no name where
/// the archive has no such entry or the record of the entry is damaged.
#[verifier::external_body]
fn zip_name(archive: &mut zip::ZipArchive<std::io::Cursor<Vec<u8>>>, index: usize) -> (name: Option<
    String,
>)
    ensures
        zip_entries(*final(archive)) == zip_entries(*old(archive)),
        zip_names(*final(archive)) == zip_names(*old(archive)),
        name matches Some(text) ==> index < zip_names(*old(archive)).len() && text@ == zip_names(
            *old(archive),
        )[index as int],
{
    archive.by_index_raw(index).ok().map(|file| file.name().to_string())
}

/// The message that `zip::result::ZipError` displays. Nothing is claimed of
/// the message.
#[verifier::external_body]
fn zip_message(error: zip::result::ZipError) -> String {
    error.to_string()
}

} // verus!
