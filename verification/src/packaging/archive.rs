//! The outer `ar` container of a package.

use crate::packaging::segment::PackageError;
use vstd::prelude::*;

verus! {

/// One member of an `ar` archive. Its size is the length of its payload, and
/// its owner and group are zero.
pub struct Member {
    pub name: Seq<char>,
    pub mode: u32,
    pub mtime: u64,
    pub payload: Seq<u8>,
}

/// A visible ASCII character: neither a blank nor a control character.
pub open spec fn visible(c: char) -> bool {
    ' ' < c < '\u{7f}'
}

/// A member name that the header holds as it is: one to sixteen visible ASCII
/// characters, none of them a slash.
pub open spec fn plain_name(name: Seq<char>) -> bool {
    &&& 0 < name.len() <= 16
    &&& forall|i: int| 0 <= i < name.len() ==> visible(#[trigger] name[i]) && name[i] != '/'
}

/// Whether a member fits the header of the archive, which has sixteen columns
/// for the name, twelve for the modification time, eight for the mode in
/// octal and ten for the size.
pub open spec fn fits_header(name: Seq<char>, mode: u32, mtime: u64, size: nat) -> bool {
    &&& plain_name(name)
    &&& mode < 0o100000000
    &&& mtime < 1_000_000_000_000
    &&& size < 10_000_000_000
}

/// An `ar` archive that is being written into memory: an `ar::Builder` over a
/// `Vec<u8>`.
#[verifier::external_body]
pub struct ArBuilder {
    inner: ar::Builder<Vec<u8>>,
}

/// The members that an archive has taken so far, oldest first.
pub uninterp spec fn ar_members(archive: ArBuilder) -> Seq<Member>;

/// The bytes of the archive that holds these members.
pub uninterp spec fn ar_bytes(members: Seq<Member>) -> Seq<u8>;

/// `ar::Builder::new` over an empty `Vec<u8>`: an archive without members.
#[verifier::external_body]
fn ar_new() -> (archive: ArBuilder)
    ensures
        ar_members(archive) == Seq::<Member>::empty(),
{
    ArBuilder { inner: ar::Builder::new(Vec::new()) }
}

/// `ar::Builder::append` with a header from `ar::Header::new` that carries the
/// name, the payload's length, the mode and the modification time. Its only
/// errors are those of the writer, and a `Vec<u8>` has none, and a size other
/// than the payload's length, which this header never has. Name and numbers
/// fit their columns, so the header is written as a reader expects it, and the
/// archive has one more member.
#[verifier::external_body]
fn ar_append(archive: &mut ArBuilder, name: &str, mode: u32, mtime: u64, payload: &[u8]) -> (r:
    Result<(), std::io::Error>)
    requires
        fits_header(name@, mode, mtime, payload@.len()),
    ensures
        r is Ok,
        ar_members(*final(archive)) == ar_members(*old(archive)).push(
            (Member { name: name@, mode, mtime, payload: payload@ }),
        ),
{
    let mut header = ar::Header::new(name.as_bytes().to_vec(), payload.len() as u64);
    header.set_mode(mode);
    header.set_mtime(mtime);
    archive.inner.append(&header, payload)
}

/// `ar::Builder::into_inner`, which always hands out the writer: here the
/// bytes written.
#[verifier::external_body]
fn ar_finish(archive: ArBuilder) -> (r: Result<Vec<u8>, std::io::Error>)
    ensures
        r is Ok,
        r matches Ok(bytes) ==> bytes@ == ar_bytes(ar_members(archive)),
{
    archive.inner.into_inner()
}

fn name_fits(name: &str) -> (fits: bool)
    ensures
        fits == plain_name(name@),
{
    let mut count: usize = 0;
    for c in it: name.chars()
        invariant
            it.seq() == name@,
            count == it.index(),
            count <= 16,
            forall|i: int| 0 <= i < it.index() ==> visible(#[trigger] name@[i]) && name@[i] != '/',
    {
        if count >= 16 || c <= ' ' || c >= '\u{7f}' || c == '/' {
            return false;
        }
        count += 1;
    }
    count > 0
}

impl ArBuilder {
    /// The members appended so far.
    pub open spec fn members(self) -> Seq<Member> {
        ar_members(self)
    }

    /// An archive without members.
    pub fn new() -> (archive: ArBuilder)
        ensures
            archive.members() == Seq::<Member>::empty(),
    {
        ar_new()
    }

    /// Appends one member, unless it does not fit the header: then the
    /// archive is as it was.
    pub fn append(&mut self, name: &str, mode: u32, mtime: u64, payload: &[u8]) -> (r: Result<
        (),
        PackageError,
    >)
        ensures
            r is Ok <==> fits_header(name@, mode, mtime, payload@.len()),
            r is Ok ==> final(self).members() == old(self).members().push(
                (Member { name: name@, mode, mtime, payload: payload@ }),
            ),
            r is Err ==> final(self).members() == old(self).members(),
            r matches Err(e) ==> e is Header,
    {
        if !name_fits(name) || mode >= 0o100000000 || mtime >= 1_000_000_000_000
            || payload.len() as u64 >= 10_000_000_000 {
            return Err(PackageError::Header);
        }
        let _ = ar_append(self, name, mode, mtime, payload);
        Ok(())
    }

    /// The bytes of the archive.
    pub fn into_bytes(self) -> (bytes: Vec<u8>)
        ensures
            bytes@ == ar_bytes(self.members()),
    {
        match ar_finish(self) {
            Ok(bytes) => bytes,
            Err(_) => Vec::new(),
        }
    }
}

} // verus!
