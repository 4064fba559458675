//! The control segment of a package.

use crate::packaging::archive::{plain_name, visible, ArBuilder, Member};
use crate::packaging::segment::{
    all_taken, gzip_bytes, held, plain_char, plain_path, segment, tar_bytes, Entry, EntryKind,
    PackageError, TarBuilder,
};
use crate::path::{pieces, pieces_of_word};
use crate::text::{decimal, push_decimal};
use vstd::prelude::*;
use vstd::string::*;
use vstd::utf8::encode_utf8;

verus! {

/// What the control record says of a package.
#[derive(Clone, Debug)]
pub struct ControlInfo {
    pub package: String,
    pub version: String,
    pub installed_size: u64,
    pub architecture: String,
}

impl ControlInfo {
    /// The control record: one `Key: Value` line for each field, in a fixed
    /// order, the values written as they are.
    pub open spec fn record(&self) -> Seq<char> {
        "Package: "@ + self.package@ + "\n"@
            + "Version: "@ + self.version@ + "\n"@
            + "Section: misc\n"@
            + "Priority: optional\n"@
            + "Architecture: "@ + self.architecture@ + "\n"@
            + "Installed-Size: "@ + decimal(self.installed_size as nat) + "\n"@
            + "Maintainer: N/A <nobody@example.com>\n"@
            + "Description: This is a webOS application.\n"@
            + "webOS-Package-Format-Version: 2\n"@
            + "webOS-Packager-Version: x.y.x\n"@
    }

    /// Renders the control record.
    pub fn to_string(&self) -> (text: String)
        ensures
            text@ == self.record(),
    {
        let mut text = String::new();
        text.append("Package: ");
        text.append(self.package.as_str());
        text.append("\n");
        text.append("Version: ");
        text.append(self.version.as_str());
        text.append("\n");
        text.append("Section: misc\n");
        text.append("Priority: optional\n");
        text.append("Architecture: ");
        text.append(self.architecture.as_str());
        text.append("\n");
        text.append("Installed-Size: ");
        push_decimal(&mut text, self.installed_size);
        text.append("\n");
        text.append("Maintainer: N/A <nobody@example.com>\n");
        text.append("Description: This is a webOS application.\n");
        text.append("webOS-Package-Format-Version: 2\n");
        text.append("webOS-Packager-Version: x.y.x\n");
        text
    }

    /// The one entry of the control segment: the file `control`, which holds
    /// the record.
    pub open spec fn entry(&self, mtime: u64) -> Entry {
        Entry {
            path: "control"@,
            kind: EntryKind::File,
            mode: 0o100644,
            mtime,
            payload: encode_utf8(self.record()),
        }
    }
}

/// The member that holds the control segment.
pub open spec fn control_member(mtime: u64, payload: Seq<u8>) -> Member {
    Member { name: "control.tar.gz"@, mode: 0o100644, mtime, payload }
}

/// Whether a segment fits the header of its member: the modification time
/// has at most twelve digits and the size at most ten.
pub open spec fn member_fits(mtime: u64, payload: Seq<u8>) -> bool {
    mtime < 1_000_000_000_000 && payload.len() < 10_000_000_000
}

/// The control entry is always taken and is held as it is handed over, so
/// the control segment is what gzip makes of the tar stream of that one entry.
pub proof fn control_entry_is_kept(info: &ControlInfo, mtime: u64)
    ensures
        plain_path("control"@),
        info.entry(mtime).kept() == info.entry(mtime),
        held(seq![info.entry(mtime)]) == seq![info.entry(mtime)],
        all_taken(seq![info.entry(mtime)]),
        segment(seq![info.entry(mtime)]) == gzip_bytes(tar_bytes(seq![info.entry(mtime)])),
{
    reveal_strlit("control");
    pieces_of_word("control"@);
    assert(plain_path("control"@)) by {
        assert forall|i: int| 0 <= i < "control"@.len() implies plain_char(
            #[trigger] "control"@[i],
        ) by {}
        assert(pieces("control"@)[0].len() == 7);
    }
    assert(0o100644u32 % 0o10000000 == 0o100644u32) by (bit_vector);
    assert(held(seq![info.entry(mtime)]) =~= seq![info.entry(mtime)]);
}

/// The name of the control member fits the header.
pub proof fn control_name_is_plain()
    ensures
        plain_name("control.tar.gz"@),
{
    reveal_strlit("control.tar.gz");
    assert forall|i: int| 0 <= i < "control.tar.gz"@.len() implies visible(
        #[trigger] "control.tar.gz"@[i],
    ) && "control.tar.gz"@[i] != '/' by {}
}

/// An archive that can take the control segment of a package.
pub trait AppendControl {
    fn append_control(&mut self, info: &ControlInfo, mtime: u64) -> Result<(), PackageError>;
}

impl AppendControl for ArBuilder {
    /// Appends the member `control.tar.gz`. It fails if the segment cannot be
    /// compressed, and else if the segment does not fit the member's header;
    /// the archive is then as it was.
    fn append_control(&mut self, info: &ControlInfo, mtime: u64) -> (r: Result<(), PackageError>)
        ensures
            r is Ok <==> segment(seq![info.entry(mtime)]) is Some && member_fits(
                mtime,
                segment(seq![info.entry(mtime)])->0,
            ),
            r is Ok ==> final(self).members() == old(self).members().push(
                control_member(mtime, segment(seq![info.entry(mtime)])->0),
            ),
            r matches Err(PackageError::Compress(_)) ==> segment(seq![info.entry(mtime)]) is None,
            r matches Err(PackageError::Header) ==> segment(seq![info.entry(mtime)]) is Some
                && !member_fits(mtime, segment(seq![info.entry(mtime)])->0),
            r matches Err(e) ==> e is Compress || e is Header,
            r is Err ==> final(self).members() == old(self).members(),
    {
        let control = info.to_string();
        let payload = control.as_str().as_bytes_vec();
        let mut tar = TarBuilder::new();
        proof {
            control_entry_is_kept(info, mtime);
            control_name_is_plain();
        }
        match tar.append("control", EntryKind::File, 0o100644, mtime, payload.as_slice()) {
            Ok(()) => {},
            Err(e) => {
                return Err(e);
            },
        }
        proof {
            assert(tar.entries() == seq![info.entry(mtime)]);
        }
        match tar.finish() {
            Ok(packed) => self.append("control.tar.gz", 0o100644, mtime, packed.as_slice()),
            Err(e) => Err(e),
        }
    }
}

} // verus!
