//! A segment of a package: a tar stream, compressed with gzip.

use crate::path::{dot, dot_dot, pieces};
use vstd::prelude::*;

verus! {

/// What an entry of a tar stream is.
#[derive(Clone, Copy, Debug, PartialEq, Eq, Structural)]
pub enum EntryKind {
    Directory,
    File,
}

/// One entry of a tar stream: as it is handed to `tar`, or as the stream
/// holds it. The size in its header is the length of its payload.
pub struct Entry {
    pub path: Seq<char>,
    pub kind: EntryKind,
    pub mode: u32,
    pub mtime: u64,
    pub payload: Seq<u8>,
}

impl Entry {
    /// A directory entry: mode 0755 and no payload.
    pub open spec fn directory(path: Seq<char>, mtime: u64) -> Entry {
        Entry { path, kind: EntryKind::Directory, mode: 0o755, mtime, payload: Seq::empty() }
    }

    /// The entry as the stream holds it once it is taken: under the path that
    /// `tar` stores and with the last seven octal digits of its mode.
    pub open spec fn kept(self) -> Entry {
        Entry {
            path: stored_path(self.path),
            kind: self.kind,
            mode: (self.mode % 0o10000000) as u32,
            mtime: self.mtime,
            payload: self.payload,
        }
    }
}

/// A character that every platform reads alike in a path: an ASCII character
/// other than NUL, the backslash and the colon.
pub open spec fn plain_char(c: char) -> bool {
    '\0' < c < '\u{80}' && c != '\\' && c != ':'
}

/// A path that `tar` takes and stores as it is: at most a hundred plain
/// characters, not empty, no slash at its start and no two in a row, and no
/// piece that is `.` or `..`.
pub open spec fn plain_path(path: Seq<char>) -> bool {
    &&& 0 < path.len() <= 100
    &&& path[0] != '/'
    &&& forall|i: int| 0 <= i < path.len() ==> plain_char(#[trigger] path[i])
    &&& forall|i: int| 0 < i < path.len() ==> !(path[i - 1] == '/' && #[trigger] path[i] == '/')
    &&& forall|i: int|
        0 <= i < pieces(path).len() ==> (#[trigger] pieces(path)[i]) != dot() && pieces(path)[i]
            != dot_dot()
}

/// `std::io::Error`, which is carried along and never looked into.
#[verifier::external_type_specification]
#[verifier::external_body]
pub struct ExIoError(std::io::Error);

/// A tar stream that is being written into memory: a `tar::Builder` over a
/// `Vec<u8>`.
#[verifier::external_body]
pub struct TarBuilder {
    inner: tar::Builder<Vec<u8>>,
}

/// The entries that a tar stream holds so far, oldest first.
pub uninterp spec fn tar_entries(stream: TarBuilder) -> Seq<Entry>;

/// Whether `tar` takes an entry under this path, read as a path of the
/// platform that the library is built for. It refuses, for one, the empty path
/// and an absolute one.
pub uninterp spec fn tar_takes_path(path: Seq<char>) -> bool;

/// The path under which `tar` stores an entry that was handed to it under
/// this one: it drops each `.` and each repeated slash.
pub uninterp spec fn tar_stored_path(path: Seq<char>) -> Seq<char>;

/// Whether an entry under this path is taken: a plain path always is.
pub open spec fn takes_path(path: Seq<char>) -> bool {
    plain_path(path) || tar_takes_path(path)
}

/// The path under which an entry is stored: a plain path as it is.
pub open spec fn stored_path(path: Seq<char>) -> Seq<char> {
    if plain_path(path) {
        path
    } else {
        tar_stored_path(path)
    }
}

/// The bytes of the finished tar stream that holds these entries.
pub uninterp spec fn tar_bytes(entries: Seq<Entry>) -> Seq<u8>;

/// What gzip at the default level makes of the bytes, if it succeeds.
pub uninterp spec fn gzip_bytes(bytes: Seq<u8>) -> Option<Seq<u8>>;

/// Why a package could not be built.
#[derive(Debug)]
pub enum PackageError {
    /// A service directory came without the identifier from its
    /// `services.json`; `index` is its place among the service directories.
    MissingServiceInfo { index: usize },
    /// An entry of a tree comes before the directory that holds it, or
    /// without it; `service` is the place of the tree among the service
    /// directories, and none for the application's tree; `index` is the
    /// place of the entry in its tree.
    MisplacedEntry { service: Option<usize>, index: usize },
    /// `tar` refused an entry because of its path.
    Path(std::io::Error),
    /// The segment could not be compressed.
    Compress(std::io::Error),
    /// A member does not fit the header of the archive: its name, its mode,
    /// its modification time or its size is too wide.
    Header,
}

/// `tar::Builder::new` over an empty `Vec<u8>`: a stream without entries.
#[verifier::external_body]
fn tar_new() -> (stream: TarBuilder)
    ensures
        tar_entries(stream) == Seq::<Entry>::empty(),
{
    TarBuilder { inner: tar::Builder::new(Vec::new()) }
}

/// `tar::Builder::append_data` with a header from `tar::Header::new_gnu` that
/// carries the kind, mode, modification time and the payload's length.
/// Whether it succeeds depends on the path alone, since writing to a `Vec<u8>`
/// cannot fail, and a plain path is always taken. If it succeeds, the stream
/// has one more entry: under the path as `tar` writes it, which for a plain
/// path is the path given, and with the last seven octal digits of the mode,
/// which is all that the header has room for. If not, nothing was written,
/// since the path is looked at first.
#[verifier::external_body]
fn tar_append(
    stream: &mut TarBuilder,
    path: &str,
    kind: EntryKind,
    mode: u32,
    mtime: u64,
    payload: &[u8],
) -> (r: Result<(), std::io::Error>)
    ensures
        r is Ok <==> plain_path(path@) || tar_takes_path(path@),
        r is Ok ==> tar_entries(*final(stream)) == tar_entries(*old(stream)).push(
            (Entry {
                path: if plain_path(path@) {
                    path@
                } else {
                    tar_stored_path(path@)
                },
                kind,
                mode: (mode % 0o10000000) as u32,
                mtime,
                payload: payload@,
            }),
        ),
        r is Err ==> tar_entries(*final(stream)) == tar_entries(*old(stream)),
{
    let mut header = tar::Header::new_gnu();
    header.set_entry_type(
        match kind {
            EntryKind::Directory => tar::EntryType::Directory,
            EntryKind::File => tar::EntryType::Regular,
        },
    );
    header.set_mode(mode);
    header.set_size(payload.len() as u64);
    header.set_mtime(mtime);
    stream.inner.append_data(&mut header, path, payload)
}

/// `tar::Builder::into_inner`: writes the end of the stream and hands out the
/// bytes. Its only error is one of the writer, and a `Vec<u8>` has none.
#[verifier::external_body]
fn tar_finish(stream: TarBuilder) -> (r: Result<Vec<u8>, std::io::Error>)
    ensures
        r is Ok,
        r matches Ok(bytes) ==> bytes@ == tar_bytes(tar_entries(stream)),
{
    stream.inner.into_inner()
}

/// `flate2::write::GzEncoder` at `Compression::default()`, fed all the bytes
/// at once and finished.
#[verifier::external_body]
fn gzip(bytes: &[u8]) -> (r: Result<Vec<u8>, std::io::Error>)
    ensures
        r is Ok <==> gzip_bytes(bytes@) is Some,
        r matches Ok(packed) ==> gzip_bytes(bytes@) == Some(packed@),
{
    let mut encoder = flate2::write::GzEncoder::new(Vec::new(), flate2::Compression::default());
    std::io::Write::write_all(&mut encoder, bytes)?;
    encoder.finish()
}

/// Directory entries for the given paths, in their order.
pub open spec fn directories(paths: Seq<Seq<char>>, mtime: u64) -> Seq<Entry> {
    Seq::new(paths.len(), |i: int| Entry::directory(paths[i], mtime))
}

/// Whether `tar` takes every one of the entries.
pub open spec fn all_taken(entries: Seq<Entry>) -> bool {
    forall|i: int| 0 <= i < entries.len() ==> takes_path(#[trigger] entries[i].path)
}

/// Whether every one of the entries has a plain path.
pub open spec fn all_plain(entries: Seq<Entry>) -> bool {
    forall|i: int| 0 <= i < entries.len() ==> plain_path(#[trigger] entries[i].path)
}

/// The entries as a stream holds them once it has taken them.
pub open spec fn held(entries: Seq<Entry>) -> Seq<Entry> {
    Seq::new(entries.len(), |i: int| entries[i].kept())
}

/// Whether the entry at `index` is the first that `tar` refuses.
pub open spec fn first_refused(entries: Seq<Entry>, index: int) -> bool {
    &&& 0 <= index < entries.len()
    &&& !takes_path(entries[index].path)
    &&& all_taken(entries.take(index))
}

/// Whether a stream that held `before` and was to take `entries` stopped at
/// the first of them that `tar` refuses, and holds `after`.
pub open spec fn stopped_short(before: Seq<Entry>, after: Seq<Entry>, entries: Seq<Entry>) -> bool {
    exists|k: int| #[trigger]
        first_refused(entries, k) && after == before + held(entries.take(k))
}

/// The compressed segment that is made by handing these entries to `tar`, in
/// this order, if it can be made. It holds them as `held` says.
pub open spec fn segment(entries: Seq<Entry>) -> Option<Seq<u8>> {
    if all_taken(entries) {
        gzip_bytes(tar_bytes(held(entries)))
    } else {
        None
    }
}

/// Entries with plain paths are all taken, each under its own path.
pub proof fn plain_entries_are_kept(entries: Seq<Entry>)
    requires
        all_plain(entries),
    ensures
        all_taken(entries),
        forall|i: int|
            0 <= i < entries.len() ==> (#[trigger] held(entries)[i]).path == entries[i].path,
{
    assert forall|i: int| 0 <= i < entries.len() implies takes_path(#[trigger] entries[i].path) by {
        assert(plain_path(entries[i].path));
    }
    assert forall|i: int| 0 <= i < entries.len() implies (#[trigger] held(entries)[i]).path
        == entries[i].path by {
        assert(plain_path(entries[i].path));
    }
}

/// What a stream holds of two lists in a row is what it holds of each.
pub proof fn held_of_both(a: Seq<Entry>, b: Seq<Entry>)
    ensures
        held(a + b) == held(a) + held(b),
{
    assert(held(a + b) =~= held(a) + held(b));
}

impl TarBuilder {
    /// The entries appended so far.
    pub open spec fn entries(self) -> Seq<Entry> {
        tar_entries(self)
    }

    /// A stream without entries.
    pub fn new() -> (stream: TarBuilder)
        ensures
            stream.entries() == Seq::<Entry>::empty(),
    {
        tar_new()
    }

    /// Appends one entry, unless `tar` refuses its path: then the stream is
    /// as it was.
    pub fn append(
        &mut self,
        path: &str,
        kind: EntryKind,
        mode: u32,
        mtime: u64,
        payload: &[u8],
    ) -> (r: Result<(), PackageError>)
        ensures
            r is Ok <==> takes_path(path@),
            r is Ok ==> final(self).entries() == old(self).entries().push(
                (Entry { path: path@, kind, mode, mtime, payload: payload@ }).kept(),
            ),
            r is Err ==> final(self).entries() == old(self).entries(),
            r matches Err(e) ==> e is Path,
    {
        match tar_append(self, path, kind, mode, mtime, payload) {
            Ok(()) => Ok(()),
            Err(e) => Err(PackageError::Path(e)),
        }
    }

    /// Ends the stream and compresses it.
    pub fn finish(self) -> (r: Result<Vec<u8>, PackageError>)
        ensures
            r is Ok <==> gzip_bytes(tar_bytes(self.entries())) is Some,
            r matches Ok(packed) ==> gzip_bytes(tar_bytes(self.entries())) == Some(packed@),
            r matches Err(e) ==> e is Compress,
    {
        match tar_finish(self) {
            Ok(bytes) => match gzip(bytes.as_slice()) {
                Ok(packed) => Ok(packed),
                Err(e) => Err(PackageError::Compress(e)),
            },
            Err(e) => Err(PackageError::Compress(e)),
        }
    }
}

} // verus!
