//! The update package: a zip archive that carries the new executable.
//!
//! The archive is read by the `zip` crate. Its entries are visited in the
//! order in which the crate lists them; the first entry whose name has the
//! extension of an executable, [`EXECUTABLE_SUFFIX`], is the new executable.

use crate::text::{ends_with, ends_with_text};
use std::io::Cursor;
use std::io::Read;
use vstd::prelude::*;
use zip::result::ZipError;
use zip::ZipArchive;

verus! {

/// The extension of an executable, with its dot: the end of the name of the
/// entry that holds the new executable.
pub const EXECUTABLE_SUFFIX: &'static str = ".exe";

/// Why an update package gave no executable.
#[derive(Debug, Clone, Copy, PartialEq, Eq, Structural)]
pub enum PackageError {
    /// The bytes are no zip archive, or an entry that had to be opened or read
    /// could not be.
    Corrupt,
    /// Every entry was opened and none is named like an executable.
    NoExecutable,
}

/// `zip::ZipArchive`, an opened archive. Nothing is known of a value but
/// what [`archive_members`] names.
#[verifier::external_type_specification]
#[verifier::external_body]
#[verifier::reject_recursive_types(R)]
pub struct ExZipArchive<R>(ZipArchive<R>);

/// `std::io::Cursor`, the reader over bytes in memory that the archive is
/// opened on. It is only carried along.
#[verifier::external_type_specification]
#[verifier::external_body]
#[verifier::reject_recursive_types(T)]
pub struct ExCursor<T>(Cursor<T>);

/// `zip::result::ZipError`. Only that it came back is looked at.
#[verifier::external_type_specification]
#[verifier::external_body]
pub struct ExZipError(ZipError);

/// What `zip` makes of a byte string: `None` where it does not accept it as an
/// archive, else the entries that it lists, in its order. The crate keeps the
/// entries of the central directory by name, so that entries of one name are
/// one item. An item holds the entry's name and what opening and reading the
/// entry gives: `None` where the entry cannot be opened, `Some(None)` where it
/// opens and its data cannot be read to the end, else the data.
pub uninterp spec fn zip_contents(bytes: Seq<u8>) -> Option<
    Seq<(Seq<char>, Option<Option<Seq<u8>>>)>,
>;

/// The entries of an opened archive, as [`zip_contents`] lists them.
pub uninterp spec fn archive_members(archive: ZipArchive<Cursor<Vec<u8>>>) -> Seq<
    (Seq<char>, Option<Option<Seq<u8>>>),
>;

/// `zip::ZipArchive::new` over bytes held in memory. The archive that comes
/// back holds the entries that [`zip_contents`] names for these bytes; an
/// error comes back exactly where it names none.
#[verifier::external_body]
fn open_archive(bytes: Vec<u8>) -> (opened: Result<ZipArchive<Cursor<Vec<u8>>>, ZipError>)
    ensures
        match opened {
            Ok(archive) => zip_contents(bytes@) == Some(archive_members(archive)),
            Err(_) => zip_contents(bytes@) is None,
        },
{
    ZipArchive::new(Cursor::new(bytes))
}

/// `zip::ZipArchive::len`: the number of entries.
#[verifier::external_body]
fn archive_len(archive: &ZipArchive<Cursor<Vec<u8>>>) -> (n: usize)
    ensures
        n == archive_members(*archive).len(),
{
    archive.len()
}

/// `zip::ZipArchive::by_index`, then `zip::read::ZipFile::name`: the name of
/// the entry at `index`, or an error where the entry cannot be opened. The
/// archive holds the same entries afterwards.
#[verifier::external_body]
fn entry_name(archive: &mut ZipArchive<Cursor<Vec<u8>>>, index: usize) -> (name: Result<
    String,
    ZipError,
>)
    ensures
        archive_members(*final(archive)) == archive_members(*old(archive)),
        match name {
            Ok(text) => index < archive_members(*old(archive)).len()
                && archive_members(*old(archive))[index as int].1 is Some
                && text@ == archive_members(*old(archive))[index as int].0,
            Err(_) => index < archive_members(*old(archive)).len()
                ==> archive_members(*old(archive))[index as int].1 is None,
        },
{
    match archive.by_index(index) {
        Ok(file) => Ok(file.name().to_owned()),
        Err(e) => Err(e),
    }
}

/// `zip::ZipArchive::by_index`, then `read_to_end` on the entry: its data,
/// decompressed and checked, or an error where the entry cannot be opened or
/// read to the end. The archive holds the same entries afterwards.
#[verifier::external_body]
fn entry_data(archive: &mut ZipArchive<Cursor<Vec<u8>>>, index: usize) -> (data: Result<
    Vec<u8>,
    ZipError,
>)
    ensures
        archive_members(*final(archive)) == archive_members(*old(archive)),
        match data {
            Ok(bytes) => index < archive_members(*old(archive)).len()
                && archive_members(*old(archive))[index as int].1 == Some(Some(bytes@)),
            Err(_) => index < archive_members(*old(archive)).len()
                ==> !(archive_members(*old(archive))[index as int].1 matches Some(Some(_))),
        },
{
    let mut file = archive.by_index(index)?;
    let mut bytes = Vec::new();
    file.read_to_end(&mut bytes)?;
    Ok(bytes)
}

/// An entry of this name holds the executable.
pub open spec fn executable_name(name: Seq<char>) -> bool {
    ends_with_text(name, EXECUTABLE_SUFFIX@)
}

/// What a scan of `members` that starts at `from` gives: the data of the
/// first entry that is named like an executable, provided that it and every
/// entry before it can be opened, and that its data can be read.
pub open spec fn executable_from(
    members: Seq<(Seq<char>, Option<Option<Seq<u8>>>)>,
    from: int,
) -> Result<Seq<u8>, PackageError>
    decreases members.len() - from,
{
    if from < 0 || from >= members.len() {
        Err(PackageError::NoExecutable)
    } else if members[from].1 is None {
        Err(PackageError::Corrupt)
    } else if executable_name(members[from].0) {
        match members[from].1 {
            Some(Some(data)) => Ok(data),
            _ => Err(PackageError::Corrupt),
        }
    } else {
        executable_from(members, from + 1)
    }
}

/// The executable that a package holds.
pub open spec fn executable_of(
    contents: Option<Seq<(Seq<char>, Option<Option<Seq<u8>>>)>>,
) -> Result<Seq<u8>, PackageError> {
    match contents {
        Some(members) => executable_from(members, 0),
        None => Err(PackageError::Corrupt),
    }
}

/// The scan finds the executable at the first entry that is named like one,
/// where that entry and all before it can be opened and its data can be read.
pub proof fn lemma_executable_found(
    members: Seq<(Seq<char>, Option<Option<Seq<u8>>>)>,
    index: int,
    data: Seq<u8>,
)
    requires
        0 <= index < members.len(),
        forall|j: int|
            0 <= j < index ==> (#[trigger] members[j]).1 is Some && !executable_name(members[j].0),
        executable_name(members[index].0),
        members[index].1 == Some(Some(data)),
    ensures
        executable_of(Some(members)) == Ok::<Seq<u8>, PackageError>(data),
{
    lemma_scan_passes_over(members, 0, index);
}

/// A package with exactly one entry that is named like an executable gives
/// that entry's data, wherever the entry stands, provided that it and every
/// entry before it can be opened and its data can be read.
pub proof fn lemma_only_executable_is_taken(
    members: Seq<(Seq<char>, Option<Option<Seq<u8>>>)>,
    index: int,
    data: Seq<u8>,
)
    requires
        0 <= index < members.len(),
        forall|j: int|
            0 <= j < members.len() ==> (executable_name((#[trigger] members[j]).0) <==> j == index),
        forall|j: int| 0 <= j < index ==> (#[trigger] members[j]).1 is Some,
        members[index].1 == Some(Some(data)),
    ensures
        executable_of(Some(members)) == Ok::<Seq<u8>, PackageError>(data),
{
    lemma_executable_found(members, index, data);
}

/// The scan finds no executable where every entry can be opened and none is
/// named like one.
pub proof fn lemma_no_executable(members: Seq<(Seq<char>, Option<Option<Seq<u8>>>)>)
    requires
        forall|j: int|
            0 <= j < members.len() ==> (#[trigger] members[j]).1 is Some && !executable_name(
                members[j].0,
            ),
    ensures
        executable_of(Some(members)) == Err::<Seq<u8>, PackageError>(PackageError::NoExecutable),
{
    lemma_scan_passes_over(members, 0, members.len() as int);
}

/// The scan passes over entries that can be opened and are not named like an
/// executable.
proof fn lemma_scan_passes_over(
    members: Seq<(Seq<char>, Option<Option<Seq<u8>>>)>,
    from: int,
    to: int,
)
    requires
        0 <= from <= to <= members.len(),
        forall|j: int|
            from <= j < to ==> (#[trigger] members[j]).1 is Some && !executable_name(members[j].0),
    ensures
        executable_from(members, from) == executable_from(members, to),
    decreases to - from,
{
    if from < to {
        assert(members[from].1 is Some && !executable_name(members[from].0));
        lemma_scan_passes_over(members, from + 1, to);
    }
}

/// Whether an entry of this name holds the executable.
pub fn is_executable_name(name: &str) -> (hit: bool)
    ensures
        hit == executable_name(name@),
{
    ends_with(name, EXECUTABLE_SUFFIX)
}

/// Takes the new executable out of a downloaded update package.
pub fn extract_executable(package: Vec<u8>) -> (found: Result<Vec<u8>, PackageError>)
    ensures
        match found {
            Ok(executable) => executable_of(zip_contents(package@)) == Ok::<Seq<u8>, PackageError>(
                executable@,
            ),
            Err(e) => executable_of(zip_contents(package@)) == Err::<Seq<u8>, PackageError>(e),
        },
{
    let mut archive = match open_archive(package) {
        Ok(archive) => archive,
        Err(_) => {
            return Err(PackageError::Corrupt);
        },
    };
    let ghost members = archive_members(archive);
    let count: usize = archive_len(&archive);
    let mut index: usize = 0;
    while index < count
        invariant
            index <= count,
            count == members.len(),
            zip_contents(package@) == Some(members),
            archive_members(archive) == members,
            executable_from(members, 0) == executable_from(members, index as int),
        decreases count - index,
    {
        let name = match entry_name(&mut archive, index) {
            Ok(name) => name,
            Err(_) => {
                return Err(PackageError::Corrupt);
            },
        };
        if is_executable_name(name.as_str()) {
            return match entry_data(&mut archive, index) {
                Ok(data) => Ok(data),
                Err(_) => Err(PackageError::Corrupt),
            };
        }
        index += 1;
    }
    Err(PackageError::NoExecutable)
}

} // verus!
