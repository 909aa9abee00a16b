//! The archive installer: where each entry of an archive goes.
//!
//! A runtime archive is a tar archive compressed with xz. All of its entries
//! lie under one root folder, which is not wanted on disk: an entry is
//! unpacked at its path without the first component. The bytes are decoded by
//! the `xz` crate and the entries are listed by the `tar` crate; what is
//! decided here is the place of each entry under the destination directory.

use std::io::Cursor;
use std::io::Read;
use vstd::prelude::*;
use xz::bufread::XzDecoder;

verus! {

/// The byte that separates the components of a path inside an archive.
pub const SEPARATOR: u8 = 47u8;

/// The container formats that can be installed.
#[derive(Debug, Clone, Copy, PartialEq, Eq, Structural)]
pub enum ArchiveFormat {
    /// Entries are rooted as they are to be installed.
    Zip,
    /// Entries lie under one root folder, which is taken off.
    TarXz,
}

/// Why an archive could not be installed.
#[derive(Debug, Clone, Copy, PartialEq, Eq, Structural)]
pub enum InstallError {
    /// The container is malformed.
    Corrupt,
    /// The file system refused a write.
    Io,
}

/// A runtime archive, decoded, and the place of each of its entries.
#[derive(Debug, PartialEq, Eq)]
pub struct InstallPlan {
    /// The tar archive.
    pub archive: Vec<u8>,
    /// For each entry of the archive, in its order, the path under the
    /// destination directory at which it is unpacked, or `None` for an entry
    /// that is passed over.
    pub destinations: Vec<Option<Vec<u8>>>,
}

/// `std::io::Error`, as the decoder and the lister report it. Only that it
/// came back is looked at.
#[verifier::external_type_specification]
#[verifier::external_body]
pub struct ExIoError(std::io::Error);

/// What the xz decoder makes of a byte string: the decoded bytes, or `None`
/// where it reports an error before the end of the stream.
pub uninterp spec fn xz_decoded(compressed: Seq<u8>) -> Option<Seq<u8>>;

/// What `tar` lists for a byte string: the path of each entry, in the order
/// of the archive, or `None` where it reports an error before the end of the
/// archive.
pub uninterp spec fn tar_paths(archive: Seq<u8>) -> Option<Seq<Seq<u8>>>;

/// `xz::bufread::XzDecoder::new` over bytes held in memory, read to the end:
/// the bytes that [`xz_decoded`] names, or an error exactly where it names
/// none.
#[verifier::external_body]
fn decompress_xz(compressed: &[u8]) -> (decoded: Result<Vec<u8>, std::io::Error>)
    ensures
        match decoded {
            Ok(bytes) => xz_decoded(compressed@) == Some(bytes@),
            Err(_) => xz_decoded(compressed@) is None,
        },
{
    let mut bytes = Vec::new();
    XzDecoder::new(Cursor::new(compressed)).read_to_end(&mut bytes)?;
    Ok(bytes)
}

/// `tar::Archive::entries` over bytes held in memory, with
/// `tar::Entry::path_bytes` of each entry: the paths that [`tar_paths`]
/// names, or an error exactly where it names none.
#[verifier::external_body]
fn tar_entry_paths(archive: &[u8]) -> (paths: Result<Vec<Vec<u8>>, std::io::Error>)
    ensures
        match paths {
            Ok(list) => tar_paths(archive@) == Some(list.deep_view()),
            Err(_) => tar_paths(archive@) is None,
        },
{
    let mut reader = tar::Archive::new(archive);
    reader.entries()?.map(|entry| entry.map(|e| e.path_bytes().into_owned())).collect()
}

/// The first position at or after `from` that holds no separator.
pub open spec fn past_separators(path: Seq<u8>, from: int) -> int
    decreases path.len() - from,
{
    if 0 <= from < path.len() && path[from] == SEPARATOR {
        past_separators(path, from + 1)
    } else {
        from
    }
}

/// The first position at or after `from` that holds a separator, or the
/// length of the path.
pub open spec fn past_component(path: Seq<u8>, from: int) -> int
    decreases path.len() - from,
{
    if 0 <= from < path.len() && path[from] != SEPARATOR {
        past_component(path, from + 1)
    } else {
        from
    }
}

/// `path` without its first component and the separators around it, or
/// `None` where the path has no component.
pub open spec fn stripped(path: Seq<u8>) -> Option<Seq<u8>> {
    let start = past_separators(path, 0);
    if start >= path.len() {
        None
    } else {
        Some(path.skip(past_separators(path, past_component(path, start))))
    }
}

/// Where an entry of the given path goes under the destination directory.
pub open spec fn destination(format: ArchiveFormat, path: Seq<u8>) -> Option<Seq<u8>> {
    match format {
        ArchiveFormat::Zip => Some(path),
        ArchiveFormat::TarXz => stripped(path),
    }
}

/// Where the entries of a runtime archive go, given their paths.
pub open spec fn destinations(paths: Seq<Seq<u8>>) -> Seq<Option<Seq<u8>>> {
    Seq::new(paths.len(), |i: int| stripped(paths[i]))
}

impl InstallPlan {
    /// The plan holds one place for each entry of its archive, and each place
    /// is the entry's path without its first component.
    pub open spec fn consistent(&self) -> bool {
        match tar_paths(self.archive@) {
            Some(paths) => self.destinations.deep_view() == destinations(paths),
            None => false,
        }
    }
}

/// The plan for a compressed runtime archive: the decoded archive and the
/// place of each entry, or the error where the bytes cannot be decoded or
/// listed.
pub open spec fn install_plan(compressed: Seq<u8>) -> Result<
    (Seq<u8>, Seq<Option<Seq<u8>>>),
    InstallError,
> {
    match xz_decoded(compressed) {
        Some(archive) => match tar_paths(archive) {
            Some(paths) => Ok((archive, destinations(paths))),
            None => Err(InstallError::Corrupt),
        },
        None => Err(InstallError::Corrupt),
    }
}

/// `root` is one component: it is not empty and holds no separator.
pub open spec fn single_component(root: Seq<u8>) -> bool {
    root.len() > 0 && forall|i: int| 0 <= i < root.len() ==> root[i] != SEPARATOR
}

/// `path` does not begin with a separator.
pub open spec fn relative(path: Seq<u8>) -> bool {
    path.len() == 0 || path[0] != SEPARATOR
}

/// `path` below the folder `root`.
pub open spec fn under_root(root: Seq<u8>, path: Seq<u8>) -> Seq<u8> {
    root + seq![SEPARATOR] + path
}

fn skip_separators(path: &[u8], from: usize) -> (at: usize)
    requires
        from <= path.len(),
    ensures
        at == past_separators(path@, from as int),
        from <= at <= path.len(),
{
    let mut at: usize = from;
    while at < path.len() && path[at] == SEPARATOR
        invariant
            from <= at <= path.len(),
            past_separators(path@, from as int) == past_separators(path@, at as int),
        decreases path.len() - at,
    {
        at += 1;
    }
    at
}

fn skip_component(path: &[u8], from: usize) -> (at: usize)
    requires
        from <= path.len(),
    ensures
        at == past_component(path@, from as int),
        from <= at <= path.len(),
{
    let mut at: usize = from;
    while at < path.len() && path[at] != SEPARATOR
        invariant
            from <= at <= path.len(),
            past_component(path@, from as int) == past_component(path@, at as int),
        decreases path.len() - at,
    {
        at += 1;
    }
    at
}

fn copy_from(path: &[u8], from: usize) -> (tail: Vec<u8>)
    requires
        from <= path.len(),
    ensures
        tail@ == path@.skip(from as int),
{
    let mut tail: Vec<u8> = Vec::new();
    let mut at: usize = from;
    while at < path.len()
        invariant
            from <= at <= path.len(),
            tail@ == path@.subrange(from as int, at as int),
        decreases path.len() - at,
    {
        tail.push(path[at]);
        at += 1;
    }
    tail
}

/// Takes the first component off a path.
pub fn strip_root(path: &[u8]) -> (rest: Option<Vec<u8>>)
    ensures
        rest.deep_view() == stripped(path@),
{
    let start = skip_separators(path, 0);
    if start >= path.len() {
        None
    } else {
        let end = skip_component(path, start);
        let next = skip_separators(path, end);
        Some(copy_from(path, next))
    }
}

/// Where an entry of the given path goes under the destination directory.
pub fn entry_destination(format: ArchiveFormat, path: &[u8]) -> (place: Option<Vec<u8>>)
    ensures
        place.deep_view() == destination(format, path@),
{
    match format {
        ArchiveFormat::Zip => Some(copy_from(path, 0)),
        ArchiveFormat::TarXz => strip_root(path),
    }
}

/// Where the entries of a runtime archive go, given their paths.
pub fn plan_destinations(paths: &Vec<Vec<u8>>) -> (places: Vec<Option<Vec<u8>>>)
    ensures
        places.deep_view() == destinations(paths.deep_view()),
{
    let mut places: Vec<Option<Vec<u8>>> = Vec::new();
    let mut index: usize = 0;
    while index < paths.len()
        invariant
            index <= paths.len(),
            places.len() == index,
            forall|i: int| 0 <= i < index ==> places[i].deep_view() == stripped(paths[i]@),
        decreases paths.len() - index,
    {
        places.push(strip_root(paths[index].as_slice()));
        index += 1;
    }
    assert forall|i: int| 0 <= i < paths.len() implies #[trigger] paths.deep_view()[i]
        == paths[i]@ by {
        assert(paths[i].deep_view() =~= paths[i]@);
    }
    assert(places.deep_view() =~= destinations(paths.deep_view()));
    places
}

/// Decodes a compressed runtime archive and plans where its entries go.
pub fn plan_install(compressed: &[u8]) -> (planned: Result<InstallPlan, InstallError>)
    ensures
        match planned {
            Ok(plan) => install_plan(compressed@) == Ok::<_, InstallError>(
                (plan.archive@, plan.destinations.deep_view()),
            ),
            Err(e) => install_plan(compressed@) == Err::<(Seq<u8>, Seq<Option<Seq<u8>>>), _>(e),
        },
        planned matches Ok(plan) ==> plan.consistent(),
{
    let archive = match decompress_xz(compressed) {
        Ok(bytes) => bytes,
        Err(_) => {
            return Err(InstallError::Corrupt);
        },
    };
    let paths = match tar_entry_paths(archive.as_slice()) {
        Ok(list) => list,
        Err(_) => {
            return Err(InstallError::Corrupt);
        },
    };
    let destinations = plan_destinations(&paths);
    Ok(InstallPlan { archive, destinations })
}

/// A separator run that ends at `to` is skipped from any place inside it.
proof fn lemma_past_separators_run(path: Seq<u8>, from: int, to: int)
    requires
        0 <= from <= to <= path.len(),
        forall|i: int| from <= i < to ==> path[i] == SEPARATOR,
        to == path.len() || path[to] != SEPARATOR,
    ensures
        past_separators(path, from) == to,
    decreases to - from,
{
    if from < to {
        lemma_past_separators_run(path, from + 1, to);
    }
}

/// A component that ends at `to` is skipped from any place inside it.
proof fn lemma_past_component_run(path: Seq<u8>, from: int, to: int)
    requires
        0 <= from <= to <= path.len(),
        forall|i: int| from <= i < to ==> path[i] != SEPARATOR,
        to == path.len() || path[to] == SEPARATOR,
    ensures
        past_component(path, from) == to,
    decreases to - from,
{
    if from < to {
        lemma_past_component_run(path, from + 1, to);
    }
}

/// An entry that lies under a root folder is installed at its path below
/// that folder: the root and the separator after it are taken off, once, and
/// nothing else is.
pub proof fn lemma_root_removed_once(root: Seq<u8>, path: Seq<u8>)
    requires
        single_component(root),
        relative(path),
    ensures
        stripped(under_root(root, path)) == Some(path),
{
    let whole = under_root(root, path);
    let n = root.len() as int;
    assert(whole.len() == n + 1 + path.len());
    assert(forall|i: int| 0 <= i < n ==> whole[i] == root[i]);
    assert(whole[n] == SEPARATOR);
    assert(forall|i: int| 0 <= i < path.len() ==> whole[n + 1 + i] == path[i]);
    lemma_past_separators_run(whole, 0, 0);
    lemma_past_component_run(whole, 0, n);
    lemma_past_separators_run(whole, n, n + 1);
    assert(whole.skip(n + 1) =~= path);
}

/// For an archive whose entries all lie under one root folder, the planned
/// places are the entries' paths below that folder, each kept as it is.
pub proof fn lemma_rooted_archive_keeps_paths(root: Seq<u8>, paths: Seq<Seq<u8>>)
    requires
        single_component(root),
        forall|i: int| 0 <= i < paths.len() ==> relative(#[trigger] paths[i]),
    ensures
        destinations(Seq::new(paths.len(), |i: int| under_root(root, paths[i]))) == Seq::new(
            paths.len(),
            |i: int| Some(paths[i]),
        ),
{
    let rooted = Seq::new(paths.len(), |i: int| under_root(root, paths[i]));
    assert forall|i: int| 0 <= i < paths.len() implies stripped(rooted[i]) == Some(paths[i]) by {
        lemma_root_removed_once(root, paths[i]);
    }
    assert(destinations(rooted) =~= Seq::new(paths.len(), |i: int| Some(paths[i])));
}

} // verus!
