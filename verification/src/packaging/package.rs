//! A whole package: the control segment, then the data segment.

use crate::packaging::archive::{ar_bytes, fits_header, ArBuilder, Member};
use crate::packaging::control::{
    control_entry_is_kept, control_member, control_name_is_plain, member_fits, AppendControl,
    ControlInfo,
};
use crate::packaging::data::{
    all_known, all_ordered, data_entries, data_member, data_name_is_plain, first_unknown,
    misplaced_in, AppendData, PackageInfo, ServiceDir, TreeEntry,
};
use crate::packaging::segment::{all_taken, gzip_bytes, held, segment, tar_bytes, PackageError};
use vstd::prelude::*;

verus! {

/// Whether a package can be built from these parts: every service directory
/// came with its identifier, every tree is in order, both segments can be
/// made, and each fits the header of its member.
pub open spec fn can_build(
    control: &ControlInfo,
    info: &PackageInfo,
    app_dir: Seq<TreeEntry>,
    service_dirs: Seq<ServiceDir>,
    package_info: Seq<u8>,
    mtime: u64,
) -> bool {
    &&& segment(seq![control.entry(mtime)]) is Some
    &&& member_fits(mtime, segment(seq![control.entry(mtime)])->0)
    &&& all_known(service_dirs)
    &&& all_ordered(app_dir, service_dirs)
    &&& segment(data_entries(info, app_dir, service_dirs, package_info, mtime)) is Some
    &&& member_fits(
        0,
        segment(data_entries(info, app_dir, service_dirs, package_info, mtime))->0,
    )
}

/// The members of the package built from these parts.
pub open spec fn package_members(
    control: &ControlInfo,
    info: &PackageInfo,
    app_dir: Seq<TreeEntry>,
    service_dirs: Seq<ServiceDir>,
    package_info: Seq<u8>,
    mtime: u64,
) -> Seq<Member> {
    seq![
        control_member(mtime, segment(seq![control.entry(mtime)])->0),
        data_member(segment(data_entries(info, app_dir, service_dirs, package_info, mtime))->0),
    ]
}

/// Builds a package in memory: an archive of the control segment and the data
/// segment, in this order. `mtime` is the one modification time of the build.
/// A failure of the control segment is reported before one of the data
/// segment.
pub fn build_package(
    control: &ControlInfo,
    info: &PackageInfo,
    app_dir: &Vec<TreeEntry>,
    service_dirs: &Vec<ServiceDir>,
    package_info: &[u8],
    mtime: u64,
) -> (r: Result<Vec<u8>, PackageError>)
    ensures
        r is Ok <==> can_build(control, info, app_dir@, service_dirs@, package_info@, mtime),
        r matches Ok(bytes) ==> bytes@ == ar_bytes(
            package_members(control, info, app_dir@, service_dirs@, package_info@, mtime),
        ),
        r matches Err(PackageError::MissingServiceInfo { index }) ==> segment(
            seq![control.entry(mtime)],
        ) is Some && first_unknown(service_dirs@, index as int),
        r matches Err(PackageError::MisplacedEntry { service, index }) ==> segment(
            seq![control.entry(mtime)],
        ) is Some && all_known(service_dirs@) && misplaced_in(
            app_dir@,
            service_dirs@,
            service,
            index as int,
        ),
        r matches Err(PackageError::Path(_)) ==> segment(seq![control.entry(mtime)]) is Some
            && all_known(service_dirs@) && all_ordered(app_dir@, service_dirs@) && !all_taken(
            data_entries(info, app_dir@, service_dirs@, package_info@, mtime),
        ),
        r matches Err(PackageError::Compress(_)) ==> segment(seq![control.entry(mtime)]) is None
            || (all_known(service_dirs@) && all_taken(
            data_entries(info, app_dir@, service_dirs@, package_info@, mtime),
        ) && gzip_bytes(
            tar_bytes(held(data_entries(info, app_dir@, service_dirs@, package_info@, mtime))),
        ) is None),
        r matches Err(PackageError::Header) ==> segment(seq![control.entry(mtime)]) is Some && (
        !member_fits(mtime, segment(seq![control.entry(mtime)])->0) || (all_known(service_dirs@)
            && segment(
            data_entries(info, app_dir@, service_dirs@, package_info@, mtime),
        ) is Some && !member_fits(
            0,
            segment(data_entries(info, app_dir@, service_dirs@, package_info@, mtime))->0,
        ))),
{
    let mut archive = ArBuilder::new();
    match archive.append_control(control, mtime) {
        Ok(()) => {},
        Err(e) => {
            return Err(e);
        },
    }
    match archive.append_data(info, app_dir, service_dirs, package_info, mtime) {
        Ok(()) => {},
        Err(e) => {
            return Err(e);
        },
    }
    proof {
        assert(archive.members() == package_members(
            control,
            info,
            app_dir@,
            service_dirs@,
            package_info@,
            mtime,
        ));
    }
    Ok(archive.into_bytes())
}

/// A package has exactly two members, `control.tar.gz` and then
/// `data.tar.gz`. Each fits the header of the archive, and the payload of each
/// is what gzip makes of a tar stream: that of the one control entry, and that
/// of the data entries as the stream holds them.
pub proof fn package_has_two_members(
    control: &ControlInfo,
    info: &PackageInfo,
    app_dir: Seq<TreeEntry>,
    service_dirs: Seq<ServiceDir>,
    package_info: Seq<u8>,
    mtime: u64,
)
    requires
        can_build(control, info, app_dir, service_dirs, package_info, mtime),
    ensures
        ({
            let members = package_members(
                control,
                info,
                app_dir,
                service_dirs,
                package_info,
                mtime,
            );
            &&& members.len() == 2
            &&& members[0].name == "control.tar.gz"@
            &&& members[1].name == "data.tar.gz"@
            &&& members[0].mode == 0o100644 && members[0].mtime == mtime
            &&& members[1].mode == 0 && members[1].mtime == 0
            &&& gzip_bytes(tar_bytes(seq![control.entry(mtime)])) == Some(members[0].payload)
            &&& gzip_bytes(
                tar_bytes(held(data_entries(info, app_dir, service_dirs, package_info, mtime))),
            ) == Some(members[1].payload)
            &&& fits_header(
                members[0].name,
                members[0].mode,
                members[0].mtime,
                members[0].payload.len(),
            )
            &&& fits_header(
                members[1].name,
                members[1].mode,
                members[1].mtime,
                members[1].payload.len(),
            )
        }),
{
    control_entry_is_kept(control, mtime);
    control_name_is_plain();
    data_name_is_plain();
}

} // verus!
