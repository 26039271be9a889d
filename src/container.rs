//! The registry of archive formats, and the building of one archive from a
//! manifest whose source files have been read.
use crate::collect::FileEntry;
use crate::text::{owned, same_text};
use std::io::Read;
use vstd::prelude::*;

verus! {

/// The members that a tar builder holds, in the order they were appended:
/// path, contents, mode, modification time, owner and group.
pub uninterp spec fn tar_members(b: TarWriter) -> Seq<
    (Seq<char>, Seq<u8>, u32, u64, u64, u64),
>;

/// The bytes of the tar archive that holds `members`, finished.
pub uninterp spec fn tar_image(members: Seq<(Seq<char>, Seq<u8>, u32, u64, u64, u64)>) -> Seq<u8>;

/// What bzip2 at its best compression level gives for `raw`.
pub uninterp spec fn bzip2_best(raw: Seq<u8>) -> Seq<u8>;

/// Whether a tar header can name `path`. The tar writer refuses, among
/// others, absolute paths, paths with a `..` component, paths with no
/// component and paths holding a nul character; the answer depends on the
/// path alone.
pub uninterp spec fn tar_accepts_path(path: Seq<char>) -> bool;

/// A tar archive being written into memory, seen through `tar_members`: the
/// members appended to it so far.
#[verifier::external_body]
pub struct TarWriter {
    builder: tar::Builder<Vec<u8>>,
}

/// Relies on `tar::Builder::new`: a new builder holds no member.
#[verifier::external_body]
fn new_tar() -> (b: TarWriter)
    ensures
        tar_members(b) == Seq::<(Seq<char>, Seq<u8>, u32, u64, u64, u64)>::empty(),
{
    TarWriter { builder: tar::Builder::new(Vec::new()) }
}

/// Relies on `tar::Builder::append_data`: it fails only where the header
/// cannot name the path (writing into memory does not fail); on success the
/// builder holds one more member, a regular file with the given path,
/// contents and metadata.
#[verifier::external_body]
fn append_member(b: &mut TarWriter, path: &str, file: &SourceFile) -> (r: Result<
    (),
    String,
>)
    ensures
        r is Ok <==> tar_accepts_path(path@),
        r is Ok ==> tar_members(*final(b)) == tar_members(*old(b)).push(
            (path@, file.data@, file.mode, file.mtime, file.uid, file.gid),
        ),
{
    let mut header = tar::Header::new_gnu();
    header.set_entry_type(tar::EntryType::Regular);
    header.set_size(file.data.len() as u64);
    header.set_mode(file.mode);
    header.set_mtime(file.mtime);
    header.set_uid(file.uid);
    header.set_gid(file.gid);
    b.builder.append_data(&mut header, path, file.data.as_slice()).map_err(|e| e.to_string())
}

/// Relies on `tar::Builder::into_inner`: it finishes the archive and hands
/// back the buffer, which then holds the archive of the members; writing
/// into memory does not fail.
#[verifier::external_body]
fn finish_tar(b: TarWriter) -> (r: Result<Vec<u8>, String>)
    ensures
        r is Ok,
        r matches Ok(bytes) ==> bytes@ == tar_image(tar_members(b)),
{
    b.builder.into_inner().map_err(|e| e.to_string())
}

/// Relies on `bzip2::read::BzEncoder` at `Compression::best()`, read to its
/// end; reading it over bytes in memory does not fail.
#[verifier::external_body]
fn bzip2_compress(raw: &[u8]) -> (r: Result<Vec<u8>, String>)
    ensures
        r is Ok,
        r matches Ok(bytes) ==> bytes@ == bzip2_best(raw@),
{
    let mut out = Vec::new();
    match bzip2::read::BzEncoder::new(raw, bzip2::Compression::best()).read_to_end(&mut out) {
        Ok(_) => Ok(out),
        Err(e) => Err(e.to_string()),
    }
}

/// A registered archive format.
#[derive(Clone, Copy, Debug, PartialEq, Eq, Structural)]
pub enum ContainerKind {
    Tar,
    TarBzip2,
}

/// The format registered under `name`; names are compared exactly.
pub open spec fn container_kind_of(name: Seq<char>) -> Option<ContainerKind> {
    if name == seq!['t', 'a', 'r'] {
        Some(ContainerKind::Tar)
    } else if name == seq!['t', 'a', 'r', '.', 'b', 'z', 'i', 'p', '2'] {
        Some(ContainerKind::TarBzip2)
    } else {
        None
    }
}

/// The contents and metadata of a source file that was read.
#[derive(Clone, Debug, PartialEq, Eq)]
pub struct SourceFile {
    pub data: Vec<u8>,
    pub mode: u32,
    pub mtime: u64,
    pub uid: u64,
    pub gid: u64,
}

/// A manifest entry with its source file, or `None` where the source could
/// not be opened.
#[derive(Clone, Debug, PartialEq, Eq)]
pub struct LoadedEntry {
    pub entry: FileEntry,
    pub content: Option<SourceFile>,
}

/// Why no archive was built.
#[derive(Clone, Debug, PartialEq, Eq)]
pub enum ContainerError {
    /// No format is registered under this name.
    Unsupported(String),
    /// This source file could not be opened.
    Unreadable(String),
    /// The archive writer failed, with its message.
    Write(String),
}

/// The tar member that a loaded entry gives.
pub open spec fn member_of(e: LoadedEntry) -> (Seq<char>, Seq<u8>, u32, u64, u64, u64) {
    let f = e.content->Some_0;
    (e.entry.destination@, f.data@, f.mode, f.mtime, f.uid, f.gid)
}

/// The tar members of a loaded manifest, in manifest order.
pub open spec fn members_of(v: Seq<LoadedEntry>) -> Seq<(Seq<char>, Seq<u8>, u32, u64, u64, u64)> {
    v.map_values(|e: LoadedEntry| member_of(e))
}

/// Every destination of the manifest can be named in a tar header.
pub open spec fn all_paths_accepted(v: Seq<LoadedEntry>) -> bool {
    forall|k: int| 0 <= k < v.len() ==> tar_accepts_path(#[trigger] v[k].entry.destination@)
}

/// Every source of the manifest was read.
pub open spec fn all_readable(v: Seq<LoadedEntry>) -> bool {
    forall|k: int| 0 <= k < v.len() ==> (#[trigger] v[k]).content is Some
}

/// Entry `k` is the first whose source could not be read.
pub open spec fn first_unreadable(v: Seq<LoadedEntry>, k: int) -> bool {
    &&& 0 <= k < v.len()
    &&& v[k].content is None
    &&& forall|j: int| 0 <= j < k ==> (#[trigger] v[j]).content is Some
}

/// The bytes of the archive of `members` in the format `kind`.
pub open spec fn archive_image(
    kind: ContainerKind,
    members: Seq<(Seq<char>, Seq<u8>, u32, u64, u64, u64)>,
) -> Seq<u8> {
    match kind {
        ContainerKind::Tar => tar_image(members),
        ContainerKind::TarBzip2 => bzip2_best(tar_image(members)),
    }
}

impl ContainerKind {
    /// Looks `name` up in the registry.
    pub fn from_name(name: &str) -> (r: Option<ContainerKind>)
        ensures
            r == container_kind_of(name@),
    {
        proof {
            reveal_strlit("tar");
            reveal_strlit("tar.bzip2");
            assert("tar"@ =~= seq!['t', 'a', 'r']);
            assert("tar.bzip2"@ =~= seq!['t', 'a', 'r', '.', 'b', 'z', 'i', 'p', '2']);
        }
        if same_text(name, "tar") {
            Some(ContainerKind::Tar)
        } else if same_text(name, "tar.bzip2") {
            Some(ContainerKind::TarBzip2)
        } else {
            None
        }
    }
}

/// Whether an archive format is registered under `container`.
pub fn support_container(container: &str) -> (r: bool)
    ensures
        r == container_kind_of(container@) is Some,
{
    ContainerKind::from_name(container).is_some()
}

/// The tar archive of a manifest whose sources were all read.
fn build_tar(files: &[LoadedEntry]) -> (r: Result<Vec<u8>, ContainerError>)
    requires
        all_readable(files@),
    ensures
        r matches Ok(bytes) ==> bytes@ == tar_image(members_of(files@)),
        r is Err ==> r matches Err(ContainerError::Write(_)),
        r is Ok <==> all_paths_accepted(files@),
{
    let mut builder = new_tar();
    let mut i: usize = 0;
    while i < files.len()
        invariant
            i <= files.len(),
            all_readable(files@),
            tar_members(builder) == members_of(files@.take(i as int)),
            forall|k: int| 0 <= k < i ==> tar_accepts_path(#[trigger] files@[k].entry.destination@),
        decreases files.len() - i,
    {
        let item = &files[i];
        match &item.content {
            Some(file) => {
                match append_member(&mut builder, item.entry.destination.as_str(), file) {
                    Ok(()) => {},
                    Err(message) => {
                        proof {
                            assert(!tar_accepts_path(files@[i as int].entry.destination@));
                        }
                        return Err(ContainerError::Write(message));
                    },
                }
            },
            None => {
                proof {
                    assert(files@[i as int].content is Some);
                }
                return Err(ContainerError::Unreadable(owned(item.entry.source.as_str())));
            },
        }
        proof {
            assert(members_of(files@.take(i + 1)) =~= members_of(files@.take(i as int)).push(
                member_of(files@[i as int]),
            ));
        }
        i = i + 1;
    }
    proof {
        assert(files@.take(files.len() as int) =~= files@);
    }
    match finish_tar(builder) {
        Ok(bytes) => Ok(bytes),
        Err(message) => Err(ContainerError::Write(message)),
    }
}

/// Builds the archive of `files` in the format named `container`. Fails when
/// the format is not registered, then when a source could not be opened
/// (naming the first), then when a destination cannot be named in a tar
/// header; otherwise it succeeds.
pub fn compress(files: &[LoadedEntry], container: &str) -> (r: Result<Vec<u8>, ContainerError>)
    ensures
        container_kind_of(container@) is None ==> (r matches Err(ContainerError::Unsupported(n))
            && n@ == container@),
        forall|k: int|
            container_kind_of(container@) is Some && first_unreadable(files@, k) ==> (r matches Err(
                ContainerError::Unreadable(p),
            ) && p@ == files@[k].entry.source@),
        r matches Ok(bytes) ==> container_kind_of(container@) matches Some(kind) && all_readable(
            files@,
        ) && bytes@ == archive_image(kind, members_of(files@)),
        r matches Err(ContainerError::Write(_)) ==> container_kind_of(container@) is Some
            && all_readable(files@) && !all_paths_accepted(files@),
        container_kind_of(container@) is Some && all_readable(files@) && all_paths_accepted(
            files@,
        ) ==> r is Ok,
{
    let kind = match ContainerKind::from_name(container) {
        Some(kind) => kind,
        None => {
            return Err(ContainerError::Unsupported(owned(container)));
        },
    };
    let mut i: usize = 0;
    while i < files.len()
        invariant
            i <= files.len(),
            container_kind_of(container@) == Some(kind),
            forall|j: int| 0 <= j < i ==> (#[trigger] files@[j]).content is Some,
        decreases files.len() - i,
    {
        if files[i].content.is_none() {
            proof {
                assert forall|k: int| first_unreadable(files@, k) implies k == i by {
                    if k < i {
                    } else if k > i {
                        assert(files@[i as int].content is Some);
                    }
                }
            }
            return Err(ContainerError::Unreadable(owned(files[i].entry.source.as_str())));
        }
        i = i + 1;
    }
    proof {
        assert forall|k: int| !first_unreadable(files@, k) by {
            if 0 <= k < files@.len() {
                assert(files@[k].content is Some);
            }
        }
    }
    let tar = build_tar(files);
    match kind {
        ContainerKind::Tar => tar,
        ContainerKind::TarBzip2 => match tar {
            Ok(raw) => match bzip2_compress(raw.as_slice()) {
                Ok(bytes) => Ok(bytes),
                Err(message) => Err(ContainerError::Write(message)),
            },
            Err(e) => Err(e),
        },
    }
}

/// Two loaded manifests that name the same entries with the same contents and
/// metadata, in the same order.
pub open spec fn same_inputs(first: Seq<LoadedEntry>, second: Seq<LoadedEntry>) -> bool {
    &&& first.len() == second.len()
    &&& forall|k: int|
        0 <= k < first.len() ==> member_of(#[trigger] first[k]) == member_of(second[k])
}

/// Building an archive again from the same manifest and the same inputs gives
/// the same bytes, so a sidecar written from them holds the same text.
pub proof fn lemma_rerun_same_archive(
    kind: ContainerKind,
    first: Seq<LoadedEntry>,
    second: Seq<LoadedEntry>,
    hash: crate::hash::HashKind,
)
    requires
        same_inputs(first, second),
    ensures
        archive_image(kind, members_of(first)) == archive_image(kind, members_of(second)),
        crate::hash::sidecar_text(hash, archive_image(kind, members_of(first)))
            == crate::hash::sidecar_text(hash, archive_image(kind, members_of(second))),
{
    assert(members_of(first) =~= members_of(second));
}

} // verus!
