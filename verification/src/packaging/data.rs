//! The data segment of a package.

use crate::packaging::archive::{plain_name, visible, ArBuilder, Member};
use crate::packaging::control::member_fits;
use crate::packaging::segment::{
    all_taken, directories, first_refused, gzip_bytes, held, held_of_both, segment,
    stopped_short, takes_path, tar_bytes, Entry, EntryKind, PackageError, TarBuilder,
};
use crate::packaging::tree::{directories_first, first_misplaced, misplaced_entry};
use crate::path::{
    ancestor_dirs, ancestors, ancestors_join, ancestors_top_down, segments, stop_text, texts,
};
use vstd::prelude::*;
use vstd::string::*;

verus! {

/// What the builder needs to know of a package: `id` names its directory
/// under `usr/palm/packages`, `app` that of its application. Whatever else
/// the package's metadata holds passes through the builder as the bytes of
/// `packageinfo.json`.
#[derive(Clone, Debug)]
pub struct PackageInfo {
    pub id: String,
    pub app: String,
}

/// What the `services.json` of a service directory says.
#[derive(Clone, Debug)]
pub struct ServiceInfo {
    pub id: String,
}

/// One file or directory of a tree that goes into the package. `path` is
/// relative to the tree's root, with `/` between its segments; the root itself
/// has the empty path.
#[derive(Clone, Debug)]
pub struct TreeEntry {
    pub path: String,
    pub kind: EntryKind,
    pub mode: u32,
    pub payload: Vec<u8>,
}

/// A service directory: what its `services.json` says, if that could be read,
/// and its tree.
#[derive(Clone, Debug)]
pub struct ServiceDir {
    pub info: Option<ServiceInfo>,
    pub tree: Vec<TreeEntry>,
}

impl TreeEntry {
    /// The entry that stands for this one below `root`, with the build's
    /// modification time.
    pub open spec fn placed(&self, root: Seq<char>, mtime: u64) -> Entry {
        Entry {
            path: root.push('/') + self.path@,
            kind: self.kind,
            mode: self.mode,
            mtime,
            payload: self.payload@,
        }
    }
}

/// The entries of a tree copied below `root`, in the tree's order.
pub open spec fn tree_entries(root: Seq<char>, tree: Seq<TreeEntry>, mtime: u64) -> Seq<Entry> {
    Seq::new(tree.len(), |i: int| tree[i].placed(root, mtime))
}

/// If each of two lists is taken, so is the two in a row, and the other way
/// round.
pub proof fn all_taken_of_both(a: Seq<Entry>, b: Seq<Entry>)
    ensures
        all_taken(a + b) <==> all_taken(a) && all_taken(b),
{
    if all_taken(a + b) {
        assert forall|i: int| 0 <= i < a.len() implies takes_path(#[trigger] a[i].path) by {
            assert((a + b)[i] == a[i]);
        }
        assert forall|i: int| 0 <= i < b.len() implies takes_path(#[trigger] b[i].path) by {
            assert((a + b)[a.len() + i] == b[i]);
        }
    }
}

/// Appends a directory entry for each directory that leads to `path`, the
/// path itself included, root-most first; those down to and including
/// `path_stop` are left out. Each has mode 0755, no payload and the given
/// modification time. It stops at the first that `tar` refuses. Where the
/// stop has the path's own segments, and for a path without segments, it
/// appends nothing and succeeds.
pub fn mkdirp(tar: &mut TarBuilder, path: &str, path_stop: Option<&str>, mtime: u64) -> (r: Result<
    (),
    PackageError,
>)
    ensures
        r is Ok <==> all_taken(directories(ancestors(path@, stop_text(path_stop)), mtime)),
        r is Ok ==> final(tar).entries() == old(tar).entries() + held(
            directories(ancestors(path@, stop_text(path_stop)), mtime),
        ),
        r is Err ==> stopped_short(
            old(tar).entries(),
            final(tar).entries(),
            directories(ancestors(path@, stop_text(path_stop)), mtime),
        ),
        r matches Err(e) ==> e is Path,
        ancestors(path@, stop_text(path_stop)).len() == 0 ==> r is Ok && final(tar).entries()
            == old(tar).entries(),
{
    let dirs = ancestor_dirs(path, path_stop);
    let empty: Vec<u8> = Vec::new();
    let ghost before = tar.entries();
    let ghost made = directories(ancestors(path@, stop_text(path_stop)), mtime);
    let mut i: usize = 0;
    while i < dirs.len()
        invariant
            i <= dirs.len(),
            empty@.len() == 0,
            texts(dirs@) == ancestors(path@, stop_text(path_stop)),
            made == directories(ancestors(path@, stop_text(path_stop)), mtime),
            before == old(tar).entries(),
            tar.entries() == before + held(made.take(i as int)),
            all_taken(made.take(i as int)),
        decreases dirs.len() - i,
    {
        proof {
            assert(texts(dirs@)[i as int] == dirs@[i as int]@);
        }
        match tar.append(dirs[i].as_str(), EntryKind::Directory, 0o755, mtime, empty.as_slice()) {
            Ok(()) => {},
            Err(e) => {
                assert(first_refused(made, i as int));
                return Err(e);
            },
        }
        proof {
            assert(empty@ == Seq::<u8>::empty());
            assert(made.take(i + 1) == made.take(i as int).push(made[i as int]));
            assert(held(made.take(i + 1)) == held(made.take(i as int)).push(
                made[i as int].kept(),
            ));
        }
        i += 1;
    }
    proof {
        assert(made.take(i as int) == made);
    }
    Ok(())
}

/// Appends the entries of a tree below `root`, in the tree's order, each with
/// its own kind, mode and payload and with the given modification time,
/// unless an entry of the tree comes before the directory that holds it: then
/// nothing is appended. It stops at the first entry that `tar` refuses.
pub fn append_tree(tar: &mut TarBuilder, root: &str, tree: &Vec<TreeEntry>, mtime: u64) -> (r:
    Result<(), PackageError>)
    ensures
        r is Ok <==> directories_first(tree@) && all_taken(tree_entries(root@, tree@, mtime)),
        r is Ok ==> final(tar).entries() == old(tar).entries() + held(
            tree_entries(root@, tree@, mtime),
        ),
        r matches Err(PackageError::MisplacedEntry { service, index }) ==> service is None
            && first_misplaced(tree@, index as int) && final(tar).entries() == old(tar).entries(),
        r matches Err(PackageError::Path(_)) ==> directories_first(tree@) && stopped_short(
            old(tar).entries(),
            final(tar).entries(),
            tree_entries(root@, tree@, mtime),
        ),
        r matches Err(e) ==> e is MisplacedEntry || e is Path,
{
    match misplaced_entry(tree) {
        Some(index) => Err(PackageError::MisplacedEntry { service: None, index }),
        None => copy_tree(tar, root, tree, mtime),
    }
}

fn copy_tree(tar: &mut TarBuilder, root: &str, tree: &Vec<TreeEntry>, mtime: u64) -> (r: Result<
    (),
    PackageError,
>)
    ensures
        r is Ok <==> all_taken(tree_entries(root@, tree@, mtime)),
        r is Ok ==> final(tar).entries() == old(tar).entries() + held(
            tree_entries(root@, tree@, mtime),
        ),
        r is Err ==> stopped_short(
            old(tar).entries(),
            final(tar).entries(),
            tree_entries(root@, tree@, mtime),
        ),
        r matches Err(e) ==> e is Path,
{
    let ghost before = tar.entries();
    let ghost copied = tree_entries(root@, tree@, mtime);
    let mut i: usize = 0;
    while i < tree.len()
        invariant
            i <= tree.len(),
            copied == tree_entries(root@, tree@, mtime),
            before == old(tar).entries(),
            tar.entries() == before + held(copied.take(i as int)),
            all_taken(copied.take(i as int)),
        decreases tree.len() - i,
    {
        let item = &tree[i];
        let mut path = String::from_str(root);
        path.push('/');
        path.append(item.path.as_str());
        match tar.append(path.as_str(), item.kind, item.mode, mtime, item.payload.as_slice()) {
            Ok(()) => {},
            Err(e) => {
                assert(first_refused(copied, i as int));
                return Err(e);
            },
        }
        proof {
            assert(copied.take(i + 1) == copied.take(i as int).push(copied[i as int]));
            assert(held(copied.take(i + 1)) == held(copied.take(i as int)).push(
                copied[i as int].kept(),
            ));
        }
        i += 1;
    }
    proof {
        assert(copied.take(i as int) == copied);
    }
    Ok(())
}

/// Whether every service directory came with its identifier.
pub open spec fn all_known(dirs: Seq<ServiceDir>) -> bool {
    forall|i: int| 0 <= i < dirs.len() ==> (#[trigger] dirs[i]).info is Some
}

/// Whether every tree is in order: each directory before what is in it.
pub open spec fn all_ordered(app_dir: Seq<TreeEntry>, dirs: Seq<ServiceDir>) -> bool {
    &&& directories_first(app_dir)
    &&& forall|i: int| 0 <= i < dirs.len() ==> directories_first((#[trigger] dirs[i]).tree@)
}

/// Whether the entry at `index` is the first misplaced one of the first tree
/// that is out of order: of the application's tree, or of the tree of the
/// service directory at `service`.
pub open spec fn misplaced_in(
    app_dir: Seq<TreeEntry>,
    dirs: Seq<ServiceDir>,
    service: Option<usize>,
    index: int,
) -> bool {
    match service {
        None => first_misplaced(app_dir, index),
        Some(which) => {
            &&& directories_first(app_dir)
            &&& which < dirs.len()
            &&& forall|i: int| 0 <= i < which ==> directories_first((#[trigger] dirs[i]).tree@)
            &&& first_misplaced(dirs[which as int].tree@, index)
        },
    }
}

/// Whether the directory at `index` is the first that came without its
/// identifier.
pub open spec fn first_unknown(dirs: Seq<ServiceDir>, index: int) -> bool {
    &&& 0 <= index < dirs.len()
    &&& dirs[index].info is None
    &&& forall|i: int| 0 <= i < index ==> (#[trigger] dirs[i]).info is Some
}

/// Where the tree of the application `app` goes.
pub open spec fn application_root(app: Seq<char>) -> Seq<char> {
    "usr/palm/applications/"@ + app
}

/// Where the tree of the service `id` goes.
pub open spec fn service_root(id: Seq<char>) -> Seq<char> {
    "usr/palm/services/"@ + id
}

/// The directory that holds the metadata of the package `id`.
pub open spec fn package_dir(id: Seq<char>) -> Seq<char> {
    "usr/palm/packages/"@ + id + "/"@
}

/// The entries of the service trees, each below the root of its service, in
/// the order of the directories.
pub open spec fn service_entries(dirs: Seq<ServiceDir>, mtime: u64) -> Seq<Entry>
    decreases dirs.len(),
{
    if dirs.len() == 0 {
        Seq::empty()
    } else {
        service_entries(dirs.drop_last(), mtime) + tree_entries(
            service_root(dirs.last().info->0.id@),
            dirs.last().tree@,
            mtime,
        )
    }
}

/// The file `packageinfo.json` of the package `id`.
pub open spec fn package_info_entry(id: Seq<char>, package_info: Seq<u8>, mtime: u64) -> Entry {
    Entry {
        path: "usr/palm/packages/"@ + id + "/packageinfo.json"@,
        kind: EntryKind::File,
        mode: 0o644,
        mtime,
        payload: package_info,
    }
}

/// The entries of the data segment, in their order: the directories that lead
/// to the applications, the application's tree, the trees of the services, the
/// directories that lead from `usr/palm` to the package's metadata, and the
/// file `packageinfo.json` with the bytes given.
pub open spec fn data_entries(
    info: &PackageInfo,
    app_dir: Seq<TreeEntry>,
    service_dirs: Seq<ServiceDir>,
    package_info: Seq<u8>,
    mtime: u64,
) -> Seq<Entry> {
    directories(ancestors("usr/palm/applications/"@, None), mtime) + tree_entries(
        application_root(info.app@),
        app_dir,
        mtime,
    ) + service_entries(service_dirs, mtime) + directories(
        ancestors(package_dir(info.id@), Some("usr/palm"@)),
        mtime,
    ) + seq![package_info_entry(info.id@, package_info, mtime)]
}

/// The name of the data member fits the header.
pub proof fn data_name_is_plain()
    ensures
        plain_name("data.tar.gz"@),
{
    reveal_strlit("data.tar.gz");
    assert forall|i: int| 0 <= i < "data.tar.gz"@.len() implies visible(
        #[trigger] "data.tar.gz"@[i],
    ) && "data.tar.gz"@[i] != '/' by {}
}

/// The member that holds the data segment.
pub open spec fn data_member(payload: Seq<u8>) -> Member {
    Member { name: "data.tar.gz"@, mode: 0, mtime: 0, payload }
}

/// The trees of the first service directories are taken if those of all are.
proof fn services_taken_before(dirs: Seq<ServiceDir>, count: int, mtime: u64)
    requires
        0 <= count <= dirs.len(),
        all_taken(service_entries(dirs, mtime)),
    ensures
        all_taken(service_entries(dirs.take(count), mtime)),
    decreases dirs.len(),
{
    if count == dirs.len() {
        assert(dirs.take(count) == dirs);
    } else {
        all_taken_of_both(
            service_entries(dirs.drop_last(), mtime),
            tree_entries(service_root(dirs.last().info->0.id@), dirs.last().tree@, mtime),
        );
        services_taken_before(dirs.drop_last(), count, mtime);
        assert(dirs.drop_last().take(count) == dirs.take(count));
    }
}

fn append_services(tar: &mut TarBuilder, service_dirs: &Vec<ServiceDir>, mtime: u64) -> (r: Result<
    (),
    PackageError,
>)
    requires
        all_known(service_dirs@),
    ensures
        r is Ok <==> all_taken(service_entries(service_dirs@, mtime)),
        r is Ok ==> final(tar).entries() == old(tar).entries() + held(
            service_entries(service_dirs@, mtime),
        ),
        r matches Err(e) ==> e is Path,
{
    let ghost before = tar.entries();
    let mut i: usize = 0;
    while i < service_dirs.len()
        invariant
            i <= service_dirs.len(),
            all_known(service_dirs@),
            tar.entries() == before + held(
                service_entries(service_dirs@.take(i as int), mtime),
            ),
            all_taken(service_entries(service_dirs@.take(i as int), mtime)),
        decreases service_dirs.len() - i,
    {
        let dir = &service_dirs[i];
        let ghost done = service_entries(service_dirs@.take(i as int), mtime);
        let ghost next = tree_entries(service_root(dir.info->0.id@), dir.tree@, mtime);
        proof {
            assert(service_dirs@.take(i + 1).drop_last() == service_dirs@.take(i as int));
            assert(service_dirs@.take(i + 1).last() == *dir);
            assert(service_entries(service_dirs@.take(i + 1), mtime) == done + next);
            all_taken_of_both(done, next);
            held_of_both(done, next);
        }
        match &dir.info {
            Some(service) => {
                let mut root = String::from_str("usr/palm/services/");
                root.append(service.id.as_str());
                match copy_tree(tar, root.as_str(), &dir.tree, mtime) {
                    Ok(()) => {},
                    Err(e) => {
                        proof {
                            if all_taken(service_entries(service_dirs@, mtime)) {
                                services_taken_before(service_dirs@, i + 1, mtime);
                            }
                        }
                        return Err(e);
                    },
                }
            },
            None => {},
        }
        i += 1;
    }
    proof {
        assert(service_dirs@.take(i as int) == service_dirs@);
    }
    Ok(())
}

/// The directories made down to an ancestor and those made below it are
/// together those made for the path, as they are handed over and as the
/// stream holds them: two calls of `mkdirp`, the second stopped at the path of
/// the first, neither overlap nor leave a gap.
pub proof fn made_runs_join(stop: Seq<char>, path: Seq<char>, mtime: u64)
    requires
        segments(stop).is_prefix_of(segments(path)),
    ensures
        directories(ancestors(stop, None), mtime) + directories(
            ancestors(path, Some(stop)),
            mtime,
        ) == directories(ancestors(path, None), mtime),
        held(directories(ancestors(stop, None), mtime)) + held(
            directories(ancestors(path, Some(stop)), mtime),
        ) == held(directories(ancestors(path, None), mtime)),
        ancestors(path, None).no_duplicates(),
{
    ancestors_join(stop, path);
    ancestors_top_down(path, None);
    let above = directories(ancestors(stop, None), mtime);
    let below = directories(ancestors(path, Some(stop)), mtime);
    assert(above + below =~= directories(ancestors(path, None), mtime));
    held_of_both(above, below);
}

/// An archive that can take the data segment of a package.
pub trait AppendData {
    fn append_data(
        &mut self,
        info: &PackageInfo,
        app_dir: &Vec<TreeEntry>,
        service_dirs: &Vec<ServiceDir>,
        package_info: &[u8],
        mtime: u64,
    ) -> Result<(), PackageError>;
}

impl AppendData for ArBuilder {
    /// Appends the member `data.tar.gz`, whose entries all carry the
    /// modification time `mtime`. On an error the archive is as it was. The
    /// errors come in this order: a service directory without its identifier,
    /// a tree that is out of order, a path that `tar` refuses, a failure to
    /// compress, a segment of more than ten digits of size.
    fn append_data(
        &mut self,
        info: &PackageInfo,
        app_dir: &Vec<TreeEntry>,
        service_dirs: &Vec<ServiceDir>,
        package_info: &[u8],
        mtime: u64,
    ) -> (r: Result<(), PackageError>)
        ensures
            r is Ok <==> all_known(service_dirs@) && all_ordered(app_dir@, service_dirs@)
                && segment(
                data_entries(info, app_dir@, service_dirs@, package_info@, mtime),
            ) is Some && member_fits(
                0,
                segment(data_entries(info, app_dir@, service_dirs@, package_info@, mtime))->0,
            ),
            r is Ok ==> final(self).members() == old(self).members().push(
                data_member(
                    segment(data_entries(info, app_dir@, service_dirs@, package_info@, mtime))->0,
                ),
            ),
            r matches Err(PackageError::MissingServiceInfo { index }) ==> first_unknown(
                service_dirs@,
                index as int,
            ),
            r matches Err(PackageError::MisplacedEntry { service, index }) ==> all_known(
                service_dirs@,
            ) && misplaced_in(app_dir@, service_dirs@, service, index as int),
            r matches Err(PackageError::Path(_)) ==> all_known(service_dirs@) && all_ordered(
                app_dir@,
                service_dirs@,
            ) && !all_taken(
                data_entries(info, app_dir@, service_dirs@, package_info@, mtime),
            ),
            r matches Err(PackageError::Compress(_)) ==> all_known(service_dirs@) && all_ordered(
                app_dir@,
                service_dirs@,
            ) && all_taken(
                data_entries(info, app_dir@, service_dirs@, package_info@, mtime),
            ) && gzip_bytes(
                tar_bytes(held(data_entries(info, app_dir@, service_dirs@, package_info@, mtime))),
            ) is None,
            r matches Err(PackageError::Header) ==> all_known(service_dirs@) && all_ordered(
                app_dir@,
                service_dirs@,
            ) && segment(
                data_entries(info, app_dir@, service_dirs@, package_info@, mtime),
            ) is Some && !member_fits(
                0,
                segment(data_entries(info, app_dir@, service_dirs@, package_info@, mtime))->0,
            ),
            r is Err ==> final(self).members() == old(self).members(),
    {
        let mut i: usize = 0;
        while i < service_dirs.len()
            invariant
                i <= service_dirs.len(),
                forall|j: int| 0 <= j < i ==> (#[trigger] service_dirs@[j]).info is Some,
            decreases service_dirs.len() - i,
        {
            if service_dirs[i].info.is_none() {
                return Err(PackageError::MissingServiceInfo { index: i });
            }
            i += 1;
        }
        match misplaced_entry(app_dir) {
            Some(index) => {
                return Err(PackageError::MisplacedEntry { service: None, index });
            },
            None => {},
        }
        let mut k: usize = 0;
        while k < service_dirs.len()
            invariant
                k <= service_dirs.len(),
                all_known(service_dirs@),
                directories_first(app_dir@),
                forall|j: int|
                    0 <= j < k ==> directories_first((#[trigger] service_dirs@[j]).tree@),
            decreases service_dirs.len() - k,
        {
            match misplaced_entry(&service_dirs[k].tree) {
                Some(index) => {
                    return Err(PackageError::MisplacedEntry { service: Some(k), index });
                },
                None => {},
            }
            k += 1;
        }
        let ghost roots = directories(ancestors("usr/palm/applications/"@, None), mtime);
        let ghost app = tree_entries(application_root(info.app@), app_dir@, mtime);
        let ghost services = service_entries(service_dirs@, mtime);
        let ghost metadata = directories(
            ancestors(package_dir(info.id@), Some("usr/palm"@)),
            mtime,
        );
        let ghost last = seq![package_info_entry(info.id@, package_info@, mtime)];
        proof {
            all_taken_of_both(roots, app);
            all_taken_of_both(roots + app, services);
            all_taken_of_both(roots + app + services, metadata);
            all_taken_of_both(roots + app + services + metadata, last);
            held_of_both(roots, app);
            held_of_both(roots + app, services);
            held_of_both(roots + app + services, metadata);
            held_of_both(roots + app + services + metadata, last);
            assert(held(last) == seq![last[0].kept()]);
            data_name_is_plain();
        }
        let mut tar = TarBuilder::new();
        match mkdirp(&mut tar, "usr/palm/applications/", None, mtime) {
            Ok(()) => {},
            Err(e) => {
                return Err(e);
            },
        }
        let mut app_root = String::from_str("usr/palm/applications/");
        app_root.append(info.app.as_str());
        match copy_tree(&mut tar, app_root.as_str(), app_dir, mtime) {
            Ok(()) => {},
            Err(e) => {
                return Err(e);
            },
        }
        match append_services(&mut tar, service_dirs, mtime) {
            Ok(()) => {},
            Err(e) => {
                return Err(e);
            },
        }
        let mut dir = String::from_str("usr/palm/packages/");
        dir.append(info.id.as_str());
        dir.append("/");
        match mkdirp(&mut tar, dir.as_str(), Some("usr/palm"), mtime) {
            Ok(()) => {},
            Err(e) => {
                return Err(e);
            },
        }
        let mut file = String::from_str("usr/palm/packages/");
        file.append(info.id.as_str());
        file.append("/packageinfo.json");
        match tar.append(file.as_str(), EntryKind::File, 0o644, mtime, package_info) {
            Ok(()) => {},
            Err(e) => {
                assert(!takes_path(last[0].path));
                return Err(e);
            },
        }
        proof {
            assert(tar.entries() == held(
                data_entries(info, app_dir@, service_dirs@, package_info@, mtime),
            ));
        }
        match tar.finish() {
            Ok(packed) => self.append("data.tar.gz", 0, 0, packed.as_slice()),
            Err(e) => Err(e),
        }
    }
}

} // verus!
