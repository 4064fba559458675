//! What the layout of the data segment comes to.

use crate::packaging::data::{
    application_root, data_entries, package_dir, package_info_entry, service_entries,
    service_root, tree_entries, PackageInfo, ServiceDir, TreeEntry,
};
use crate::packaging::segment::{
    all_plain, directories, held, plain_char, plain_entries_are_kept, plain_path,
};
use crate::path::{
    ancestors, ancestors_top_down, dir_path, dir_path_grows, dot, dot_dot, pieces,
    pieces_of_joined, pieces_of_word, segments, segments_of_joined, segments_of_word, skipped,
    without_dots,
};
use vstd::prelude::*;

verus! {

proof fn segments_of_usr_palm()
    ensures
        segments("usr/palm"@) == seq!["usr"@, "palm"@],
        "usr/palm"@ == "usr"@.push('/') + "palm"@,
{
    reveal_strlit("usr/palm");
    reveal_strlit("usr");
    reveal_strlit("palm");
    assert("usr"@.len() != dot().len() && "palm"@.len() != dot().len());
    segments_of_word("usr"@);
    segments_of_word("palm"@);
    segments_of_joined("usr"@, "palm"@);
    assert("usr/palm"@ == "usr"@.push('/') + "palm"@);
    assert(seq!["usr"@] + seq!["palm"@] == seq!["usr"@, "palm"@]);
}

proof fn segments_below_usr_palm(rest: Seq<char>)
    ensures
        segments("usr/palm"@.push('/') + rest) == seq!["usr"@, "palm"@] + segments(rest),
{
    segments_of_usr_palm();
    segments_of_joined("usr/palm"@, rest);
}

/// The directories that lead to the applications are `usr/`, `usr/palm/` and
/// `usr/palm/applications/`.
pub proof fn application_directories()
    ensures
        ancestors("usr/palm/applications/"@, None) == seq![
            "usr/"@,
            "usr/palm/"@,
            "usr/palm/applications/"@,
        ],
{
    reveal_strlit("usr/palm/applications/");
    reveal_strlit("usr/palm/");
    reveal_strlit("usr/palm");
    reveal_strlit("usr/");
    reveal_strlit("usr");
    reveal_strlit("palm");
    reveal_strlit("applications");
    let path = "usr/palm/applications/"@;
    let word = "applications"@;
    assert(word.len() != dot().len());
    segments_of_word(word);
    segments_of_joined(word, Seq::empty());
    assert(word.push('/') + Seq::<char>::empty() == word.push('/'));
    segments_below_usr_palm(word.push('/'));
    assert(path == "usr/palm"@.push('/') + word.push('/'));
    let segs = segments(path);
    assert(segments(Seq::<char>::empty()) == Seq::<Seq<char>>::empty());
    assert(seq![word] + Seq::<Seq<char>>::empty() == seq![word]);
    assert(segs == seq!["usr"@, "palm"@, word]);
    reveal_with_fuel(dir_path, 4);
    assert(dir_path(segs, 1) == "usr/"@);
    assert(dir_path(segs, 2) == "usr/palm/"@);
    assert(dir_path(segs, 3) == "usr/palm/applications/"@);
    assert(ancestors(path, None) == seq!["usr/"@, "usr/palm/"@, "usr/palm/applications/"@]);
}

proof fn segments_of_package_dir(id: Seq<char>)
    ensures
        segments(package_dir(id)) == seq!["usr"@, "palm"@, "packages"@] + segments(id),
        skipped(segments(package_dir(id)), Some("usr/palm"@)) == 2,
        dir_path(segments(package_dir(id)), 3) == "usr/palm/packages/"@,
{
    reveal_strlit("usr/palm/packages/");
    reveal_strlit("usr/palm");
    reveal_strlit("usr");
    reveal_strlit("palm");
    reveal_strlit("packages");
    reveal_strlit("/");
    let word = "packages"@;
    let rest = id.push('/') + Seq::<char>::empty();
    assert(word.len() != dot().len());
    segments_of_word(word);
    segments_of_joined(id, Seq::empty());
    assert(segments(Seq::<char>::empty()) == Seq::<Seq<char>>::empty());
    assert(segments(id) + Seq::<Seq<char>>::empty() == segments(id));
    segments_of_joined(word, rest);
    segments_below_usr_palm(word.push('/') + rest);
    assert(package_dir(id) == "usr/palm"@.push('/') + (word.push('/') + rest));
    let segs = segments(package_dir(id));
    assert(segs == seq!["usr"@, "palm"@, word] + segments(id));
    segments_of_usr_palm();
    assert(segs.subrange(0, 2) == seq!["usr"@, "palm"@]);
    reveal_with_fuel(dir_path, 4);
    assert(dir_path(segs, 3) == "usr/palm/packages/"@);
}

/// A segment that every platform reads alike: not empty, of plain characters
/// without a slash, and neither `.` nor `..`.
pub open spec fn plain_segment(word: Seq<char>) -> bool {
    &&& word.len() > 0
    &&& forall|i: int| 0 <= i < word.len() ==> plain_char(#[trigger] word[i]) && word[i] != '/'
    &&& word != dot()
    &&& word != dot_dot()
}

/// An identifier that makes plain paths: a plain segment of at most 64
/// characters.
pub open spec fn plain_word(word: Seq<char>) -> bool {
    plain_segment(word) && word.len() <= 64
}

/// For a package whose identifier is one segment, the directories that lead
/// from `usr/palm` to its metadata are `usr/palm/packages/` and the package's
/// own below it. For the identifier `.` there is the first of them only.
pub proof fn package_directories(id: Seq<char>)
    requires
        id.len() > 0,
        id != dot(),
        forall|i: int| 0 <= i < id.len() ==> id[i] != '/',
    ensures
        ancestors(package_dir(dot()), Some("usr/palm"@)) == seq!["usr/palm/packages/"@],
        ancestors(package_dir(id), Some("usr/palm"@)) == seq![
            "usr/palm/packages/"@,
            package_dir(id),
        ],
{
    segments_of_package_dir(id);
    segments_of_word(id);
    reveal_strlit("/");
    let segs = segments(package_dir(id));
    assert(segs == seq!["usr"@, "palm"@, "packages"@, id]);
    assert(ancestors(package_dir(dot()), Some("usr/palm"@)) == seq!["usr/palm/packages/"@]) by {
        segments_of_package_dir(dot());
        pieces_of_word(dot());
        assert(seq![dot()].drop_last() == Seq::<Seq<char>>::empty());
        assert(seq![dot()].last() == dot());
        assert(without_dots(seq![dot()].drop_last()) == Seq::<Seq<char>>::empty());
        assert(without_dots(seq![dot()]) == Seq::<Seq<char>>::empty());
        assert(segments(dot()) == Seq::<Seq<char>>::empty());
        let short = segments(package_dir(dot()));
        assert(short == seq!["usr"@, "palm"@, "packages"@]);
    }
    assert(dir_path(segs, 4) == dir_path(segs, 3) + id.push('/'));
    assert(dir_path(segs, 4) == package_dir(id));
    assert(ancestors(package_dir(id), Some("usr/palm"@)) == seq![
        "usr/palm/packages/"@,
        package_dir(id),
    ]);
}

/// The paths of the directories made for one data segment, as they are handed
/// to `tar`, are all different: the two runs of them do not overlap.
proof fn given_directories_differ(id: Seq<char>)
    ensures
        (ancestors("usr/palm/applications/"@, None) + ancestors(
            package_dir(id),
            Some("usr/palm"@),
        )).no_duplicates(),
{
    let first = ancestors("usr/palm/applications/"@, None);
    let second = ancestors(package_dir(id), Some("usr/palm"@));
    let segs = segments(package_dir(id));
    application_directories();
    segments_of_package_dir(id);
    ancestors_top_down("usr/palm/applications/"@, None);
    ancestors_top_down(package_dir(id), Some("usr/palm"@));
    reveal_strlit("usr/palm/applications/");
    reveal_strlit("usr/palm/packages/");
    reveal_strlit("usr/palm/");
    reveal_strlit("usr/");
    assert forall|i: int, j: int| 0 <= i < first.len() && 0 <= j < second.len() implies first[i]
        != second[j] by {
        dir_path_grows(segs, 3, (3 + j) as nat);
        let stem = dir_path(segs, 3);
        assert(second[j] == dir_path(segs, (3 + j) as nat));
        assert(second[j].subrange(0, stem.len() as int) == stem);
        assert(second[j][9] == stem[9]);
    }
    let all = first + second;
    assert forall|i: int, j: int| 0 <= i < all.len() && 0 <= j < all.len() && i != j implies all[i]
        != all[j] by {
        if i < first.len() && j < first.len() {
        } else if i >= first.len() && j >= first.len() {
            assert(all[i] == second[i - first.len()]);
            assert(all[j] == second[j - first.len()]);
        } else if i < first.len() {
            assert(all[j] == second[j - first.len()]);
        } else {
            assert(all[i] == second[i - first.len()]);
        }
    }
}

/// Every entry of the service trees lies below `usr/palm/services/`.
proof fn service_entries_lie_apart(dirs: Seq<ServiceDir>, mtime: u64, which: int)
    requires
        0 <= which < service_entries(dirs, mtime).len(),
    ensures
        service_entries(dirs, mtime)[which].path.len() > 18,
        service_entries(dirs, mtime)[which].path[9] == 's',
    decreases dirs.len(),
{
    reveal_strlit("usr/palm/services/");
    let before = service_entries(dirs.drop_last(), mtime);
    if which < before.len() {
        service_entries_lie_apart(dirs.drop_last(), mtime, which);
    } else {
        let root = service_root(dirs.last().info->0.id@);
        let own = tree_entries(root, dirs.last().tree@, mtime);
        assert(service_entries(dirs, mtime)[which] == own[which - before.len()]);
        assert(root.subrange(0, 18) == "usr/palm/services/"@);
        assert(root[9] == "usr/palm/services/"@[9]);
    }
}

/// Whether the entry at `index` of the data segment is one of the directories
/// made for it: one of the three that lead to the applications, or one that
/// leads from `usr/palm` to the package's metadata.
pub open spec fn is_made_directory(
    info: &PackageInfo,
    app_dir: Seq<TreeEntry>,
    service_dirs: Seq<ServiceDir>,
    mtime: u64,
    index: int,
) -> bool {
    let trees = 3 + app_dir.len() + service_entries(service_dirs, mtime).len();
    ||| 0 <= index < 3
    ||| trees <= index < trees + ancestors(package_dir(info.id@), Some("usr/palm"@)).len()
}

/// No directory made for the data segment is handed to `tar` under the path of
/// another entry of the segment.
proof fn given_directories_are_unique(
    info: &PackageInfo,
    app_dir: Seq<TreeEntry>,
    service_dirs: Seq<ServiceDir>,
    package_info: Seq<u8>,
    mtime: u64,
)
    ensures
        forall|i: int, j: int|
            #![trigger
                data_entries(info, app_dir, service_dirs, package_info, mtime)[i],
                data_entries(info, app_dir, service_dirs, package_info, mtime)[j]
            ]
            0 <= i < data_entries(info, app_dir, service_dirs, package_info, mtime).len() && 0
                <= j < data_entries(info, app_dir, service_dirs, package_info, mtime).len() && i
                != j && is_made_directory(info, app_dir, service_dirs, mtime, i) ==> data_entries(
                info,
                app_dir,
                service_dirs,
                package_info,
                mtime,
            )[i].path != data_entries(info, app_dir, service_dirs, package_info, mtime)[j].path,
{
    let entries = data_entries(info, app_dir, service_dirs, package_info, mtime);
    let first = ancestors("usr/palm/applications/"@, None);
    let second = ancestors(package_dir(info.id@), Some("usr/palm"@));
    let segs = segments(package_dir(info.id@));
    let app = tree_entries(application_root(info.app@), app_dir, mtime);
    let services = service_entries(service_dirs, mtime);
    let trees = 3 + app.len() + services.len();
    let stem = "usr/palm/packages/"@;
    application_directories();
    segments_of_package_dir(info.id@);
    given_directories_differ(info.id@);
    reveal_strlit("usr/palm/applications/");
    reveal_strlit("usr/palm/packages/");
    reveal_strlit("usr/palm/");
    reveal_strlit("usr/");
    reveal_strlit("/packageinfo.json");
    assert forall|i: int, j: int|
        #![trigger entries[i], entries[j]]
        0 <= i < entries.len() && 0 <= j < entries.len() && i != j && is_made_directory(
            info,
            app_dir,
            service_dirs,
            mtime,
            i,
        ) implies entries[i].path != entries[j].path by {
        let made = entries[i].path;
        let other = entries[j].path;
        // What the made directory is.
        if i < 3 {
            assert(made == first[i]);
        } else {
            let k = i - trees;
            assert(made == second[k]);
            dir_path_grows(segs, 3, (3 + k) as nat);
            assert(made.subrange(0, 18) == stem);
            assert(made[9] == stem[9]);
            assert(made.last() == '/') by {
                assert(dir_path(segs, (3 + k) as nat) == dir_path(segs, (2 + k) as nat)
                    + segs[2 + k].push('/'));
            }
        }
        // What the other entry is.
        if j < 3 {
            assert(other == first[j]);
            if i >= 3 {
                assert((first + second)[j] == first[j]);
                assert((first + second)[3 + (i - trees)] == second[i - trees]);
            }
        } else if j < 3 + app.len() {
            let root = application_root(info.app@);
            assert(other == app[j - 3].path);
            assert(root.subrange(0, 22) == "usr/palm/applications/"@);
            assert(other.len() > 22);
            assert(other[9] == root[9]);
        } else if j < trees {
            assert(other == services[j - 3 - app.len()].path);
            service_entries_lie_apart(service_dirs, mtime, j - 3 - app.len());
        } else if j < trees + second.len() {
            assert(other == second[j - trees]);
            if i < 3 {
                assert((first + second)[i] == first[i]);
                assert((first + second)[3 + (j - trees)] == second[j - trees]);
            } else {
                assert((first + second)[3 + (i - trees)] == second[i - trees]);
                assert((first + second)[3 + (j - trees)] == second[j - trees]);
            }
        } else {
            assert(other == stem + info.id@ + "/packageinfo.json"@);
            assert(other.last() == 'n');
            assert(other.len() >= 35);
        }
    }
}

/// In a data segment whose entries all have plain paths, no directory made
/// for it is held under the path of another entry: each directory occurs
/// once.
pub proof fn made_directories_are_unique(
    info: &PackageInfo,
    app_dir: Seq<TreeEntry>,
    service_dirs: Seq<ServiceDir>,
    package_info: Seq<u8>,
    mtime: u64,
)
    requires
        all_plain(data_entries(info, app_dir, service_dirs, package_info, mtime)),
    ensures
        forall|i: int, j: int|
            #![trigger
                held(data_entries(info, app_dir, service_dirs, package_info, mtime))[i],
                held(data_entries(info, app_dir, service_dirs, package_info, mtime))[j]
            ]
            0 <= i < data_entries(info, app_dir, service_dirs, package_info, mtime).len() && 0
                <= j < data_entries(info, app_dir, service_dirs, package_info, mtime).len() && i
                != j && is_made_directory(info, app_dir, service_dirs, mtime, i) ==> held(
                data_entries(info, app_dir, service_dirs, package_info, mtime),
            )[i].path != held(
                data_entries(info, app_dir, service_dirs, package_info, mtime),
            )[j].path,
{
    let entries = data_entries(info, app_dir, service_dirs, package_info, mtime);
    given_directories_are_unique(info, app_dir, service_dirs, package_info, mtime);
    plain_entries_are_kept(entries);
    assert forall|i: int, j: int|
        #![trigger held(entries)[i], held(entries)[j]]
        0 <= i < entries.len() && 0 <= j < entries.len() && i != j && is_made_directory(
            info,
            app_dir,
            service_dirs,
            mtime,
            i,
        ) implies held(entries)[i].path != held(entries)[j].path by {
        assert(entries[i].path != entries[j].path);
    }
}

/// A directory that is empty or plain with a slash at its end.
spec fn plain_dir(dir: Seq<char>) -> bool {
    dir.len() == 0 || (plain_path(dir) && dir.last() == '/')
}

/// A plain word below a plain directory makes a plain path, as a file and as
/// a directory.
proof fn plain_below(dir: Seq<char>, word: Seq<char>)
    requires
        plain_dir(dir),
        word.len() > 0,
        forall|i: int| 0 <= i < word.len() ==> plain_char(#[trigger] word[i]) && word[i] != '/',
        word != dot(),
        word != dot_dot(),
        dir.len() + word.len() < 100,
    ensures
        plain_path(dir + word),
        plain_path(dir + word.push('/')),
        plain_dir(dir + word.push('/')),
{
    let file = dir + word;
    let below = dir + word.push('/');
    pieces_of_word(word);
    if dir.len() == 0 {
        assert(file == word);
        assert(pieces(file) == seq![word]);
    } else {
        let stem = dir.drop_last();
        assert(dir == stem.push('/'));
        assert(file == stem.push('/') + word);
        pieces_of_joined(stem, word);
        pieces_of_joined(stem, Seq::empty());
        assert(stem.push('/') + Seq::<char>::empty() == dir);
        assert(pieces(stem) + Seq::<Seq<char>>::empty() == pieces(stem));
        assert(pieces(file) == pieces(dir) + seq![word]);
    }
    pieces_of_joined(file, Seq::empty());
    assert(file.push('/') + Seq::<char>::empty() == below);
    assert(pieces(file) + Seq::<Seq<char>>::empty() == pieces(file));
    assert(pieces(below) == pieces(file));
    assert forall|i: int| 0 <= i < pieces(file).len() implies (#[trigger] pieces(file)[i]) != dot()
        && pieces(file)[i] != dot_dot() by {
        if i < pieces(dir).len() {
            assert(pieces(file)[i] == pieces(dir)[i]);
        }
    }
    assert forall|i: int| 0 <= i < below.len() implies plain_char(#[trigger] below[i]) by {
        if i < dir.len() {
            assert(below[i] == dir[i]);
        } else if i < file.len() {
            assert(below[i] == word[i - dir.len()]);
        }
    }
    assert forall|i: int| 0 < i < below.len() implies !(below[i - 1] == '/' && #[trigger] below[i]
        == '/') by {
        if i < dir.len() {
            assert(below[i] == dir[i] && below[i - 1] == dir[i - 1]);
        } else if i < file.len() {
            assert(below[i] == word[i - dir.len()]);
        } else {
            assert(below[i - 1] == word[word.len() - 1]);
        }
    }
    assert(below[0] != '/') by {
        if dir.len() == 0 {
            assert(below[0] == word[0]);
        } else {
            assert(below[0] == dir[0]);
        }
    }
    assert forall|i: int| 0 <= i < file.len() implies plain_char(#[trigger] file[i]) by {
        assert(file[i] == below[i]);
    }
    assert forall|i: int| 0 < i < file.len() implies !(file[i - 1] == '/' && #[trigger] file[i]
        == '/') by {
        assert(file[i] == below[i] && file[i - 1] == below[i - 1]);
    }
    assert(file[0] == below[0]);
}

proof fn plain_dirs(segs: Seq<Seq<char>>, count: nat)
    requires
        count <= segs.len(),
        forall|k: int| 0 <= k < segs.len() ==> plain_segment(#[trigger] segs[k]),
        dir_path(segs, segs.len()).len() <= 100,
    ensures
        plain_dir(dir_path(segs, count)),
        count > 0 ==> plain_path(dir_path(segs, count)),
    decreases count,
{
    if count > 0 {
        plain_dirs(segs, (count - 1) as nat);
        dir_path_grows(segs, count, segs.len());
        assert(plain_segment(segs[count - 1]));
        plain_below(dir_path(segs, (count - 1) as nat), segs[count - 1]);
    }
}

/// Where the segments of a path are plain and the path, written as a
/// directory, has at most a hundred characters, `tar` takes each directory
/// made for it and holds it under the path it was handed, so the stream holds
/// no directory twice.
pub proof fn made_directories_are_plain(path: Seq<char>, stop: Option<Seq<char>>, mtime: u64)
    requires
        forall|k: int|
            0 <= k < segments(path).len() ==> plain_segment(#[trigger] segments(path)[k]),
        dir_path(segments(path), segments(path).len()).len() <= 100,
    ensures
        all_plain(directories(ancestors(path, stop), mtime)),
        forall|i: int, j: int|
            0 <= i < j < ancestors(path, stop).len() ==> (#[trigger] held(
                directories(ancestors(path, stop), mtime),
            )[i]).path != (#[trigger] held(directories(ancestors(path, stop), mtime))[j]).path,
{
    let made = directories(ancestors(path, stop), mtime);
    let segs = segments(path);
    assert forall|i: int| 0 <= i < made.len() implies plain_path(#[trigger] made[i].path) by {
        plain_dirs(segs, (skipped(segs, stop) + i + 1) as nat);
    }
    plain_entries_are_kept(made);
    ancestors_top_down(path, stop);
    assert forall|i: int, j: int| 0 <= i < j < ancestors(path, stop).len() implies (#[trigger] held(
        made,
    )[i]).path != (#[trigger] held(made)[j]).path by {
        assert(made[i].path == ancestors(path, stop)[i]);
        assert(made[j].path == ancestors(path, stop)[j]);
    }
}

/// The paths that the layout fixes are plain for a package with a plain
/// identifier, so `tar` takes each and stores it as it is.
pub proof fn fixed_paths_are_plain(id: Seq<char>)
    requires
        plain_word(id),
    ensures
        plain_path("usr/"@),
        plain_path("usr/palm/"@),
        plain_path("usr/palm/applications/"@),
        plain_path("usr/palm/packages/"@),
        plain_path(package_dir(id)),
        plain_path("usr/palm/packages/"@ + id + "/packageinfo.json"@),
{
    reveal_strlit("usr/palm/applications/");
    reveal_strlit("usr/palm/packages/");
    reveal_strlit("usr/palm/");
    reveal_strlit("usr/");
    reveal_strlit("usr");
    reveal_strlit("palm");
    reveal_strlit("applications");
    reveal_strlit("packages");
    reveal_strlit("/");
    reveal_strlit("/packageinfo.json");
    reveal_strlit("packageinfo.json");
    let none = Seq::<char>::empty();
    assert("usr"@ != dot() && "usr"@ != dot_dot()) by {
        assert("usr"@.len() == 3);
    }
    assert("palm"@ != dot() && "palm"@ != dot_dot()) by {
        assert("palm"@.len() == 4);
    }
    assert("applications"@ != dot() && "applications"@ != dot_dot()) by {
        assert("applications"@.len() == 12);
    }
    assert("packages"@ != dot() && "packages"@ != dot_dot()) by {
        assert("packages"@.len() == 8);
    }
    assert("packageinfo.json"@ != dot() && "packageinfo.json"@ != dot_dot()) by {
        assert("packageinfo.json"@.len() == 16);
    }
    plain_below(none, "usr"@);
    assert(none + "usr"@.push('/') == "usr/"@);
    plain_below("usr/"@, "palm"@);
    assert("usr/"@ + "palm"@.push('/') == "usr/palm/"@);
    plain_below("usr/palm/"@, "applications"@);
    assert("usr/palm/"@ + "applications"@.push('/') == "usr/palm/applications/"@);
    plain_below("usr/palm/"@, "packages"@);
    assert("usr/palm/"@ + "packages"@.push('/') == "usr/palm/packages/"@);
    plain_below("usr/palm/packages/"@, id);
    assert("usr/palm/packages/"@ + id.push('/') == package_dir(id));
    plain_below(package_dir(id), "packageinfo.json"@);
    assert(package_dir(id) + "packageinfo.json"@ == "usr/palm/packages/"@ + id
        + "/packageinfo.json"@);
}

/// For a package with a plain identifier, the data segment holds the
/// directories made for it as `usr/`, `usr/palm/`, `usr/palm/applications/`,
/// `usr/palm/packages/` and the package's own below that, each once, and the
/// file `packageinfo.json` under its path as it is.
pub proof fn made_directories_are_held(id: Seq<char>, package_info: Seq<u8>, mtime: u64)
    requires
        plain_word(id),
    ensures
        held(directories(ancestors("usr/palm/applications/"@, None), mtime)) == directories(
            seq!["usr/"@, "usr/palm/"@, "usr/palm/applications/"@],
            mtime,
        ),
        held(directories(ancestors(package_dir(id), Some("usr/palm"@)), mtime)) == directories(
            seq!["usr/palm/packages/"@, package_dir(id)],
            mtime,
        ),
        package_info_entry(id, package_info, mtime).kept() == package_info_entry(
            id,
            package_info,
            mtime,
        ),
        seq![
            "usr/"@,
            "usr/palm/"@,
            "usr/palm/applications/"@,
            "usr/palm/packages/"@,
            package_dir(id),
        ].no_duplicates(),
{
    application_directories();
    package_directories(id);
    fixed_paths_are_plain(id);
    given_directories_differ(id);
    assert(0o755u32 % 0o10000000 == 0o755u32) by (bit_vector);
    assert(0o644u32 % 0o10000000 == 0o644u32) by (bit_vector);
    let first = directories(seq!["usr/"@, "usr/palm/"@, "usr/palm/applications/"@], mtime);
    let second = directories(seq!["usr/palm/packages/"@, package_dir(id)], mtime);
    assert(held(first) =~= first);
    assert(held(second) =~= second);
    assert(seq!["usr/"@, "usr/palm/"@, "usr/palm/applications/"@] + seq![
        "usr/palm/packages/"@,
        package_dir(id),
    ] =~= seq![
        "usr/"@,
        "usr/palm/"@,
        "usr/palm/applications/"@,
        "usr/palm/packages/"@,
        package_dir(id),
    ]);
}

/// How many entries the trees of the first `count` service directories make.
pub open spec fn service_offset(dirs: Seq<ServiceDir>, count: int, mtime: u64) -> int {
    service_entries(dirs.take(count), mtime).len() as int
}

/// The tree of each service directory is in the service entries whole and in
/// its order, after those of the directories before it.
pub proof fn service_tree_is_copied(dirs: Seq<ServiceDir>, which: int, mtime: u64)
    requires
        0 <= which < dirs.len(),
    ensures
        service_offset(dirs, which, mtime) + dirs[which].tree@.len() <= service_entries(
            dirs,
            mtime,
        ).len(),
        service_entries(dirs, mtime).subrange(
            service_offset(dirs, which, mtime),
            service_offset(dirs, which, mtime) + dirs[which].tree@.len(),
        ) == tree_entries(service_root(dirs[which].info->0.id@), dirs[which].tree@, mtime),
    decreases dirs.len(),
{
    let before = service_entries(dirs.drop_last(), mtime);
    let own = tree_entries(service_root(dirs.last().info->0.id@), dirs.last().tree@, mtime);
    if which == dirs.len() - 1 {
        assert(dirs.take(which) == dirs.drop_last());
        assert((before + own).subrange(before.len() as int, before.len() + own.len() as int)
            == own);
    } else {
        service_tree_is_copied(dirs.drop_last(), which, mtime);
        assert(dirs.drop_last().take(which) == dirs.take(which));
        let from = service_offset(dirs, which, mtime);
        let to = from + dirs[which].tree@.len();
        assert((before + own).subrange(from, to) == before.subrange(from, to));
    }
}

/// The data segment holds the application's tree and the tree of each service
/// whole: every file and directory of a tree has its entry, in the tree's
/// order, below the root of the application or of the service, with the
/// payload and kind that it came with, under the path as `tar` stores it and
/// with the last seven octal digits of its mode.
pub proof fn trees_are_copied(
    info: &PackageInfo,
    app_dir: Seq<TreeEntry>,
    service_dirs: Seq<ServiceDir>,
    package_info: Seq<u8>,
    mtime: u64,
)
    ensures
        forall|i: int|
            0 <= i < app_dir.len() ==> #[trigger] held(
                data_entries(info, app_dir, service_dirs, package_info, mtime),
            )[3 + i] == app_dir[i].placed(application_root(info.app@), mtime).kept(),
        forall|i: int|
            0 <= i < app_dir.len() ==> (#[trigger] held(
                data_entries(info, app_dir, service_dirs, package_info, mtime),
            )[3 + i]).payload == app_dir[i].payload@,
        forall|which: int, i: int|
            0 <= which < service_dirs.len() && 0 <= i < service_dirs[which].tree@.len()
                ==> #[trigger] held(
                data_entries(info, app_dir, service_dirs, package_info, mtime),
            )[3 + app_dir.len() + service_offset(service_dirs, which, mtime) + i]
                == (#[trigger] service_dirs[which].tree@[i].placed(
                service_root(service_dirs[which].info->0.id@),
                mtime,
            )).kept(),
{
    application_directories();
    let entries = data_entries(info, app_dir, service_dirs, package_info, mtime);
    let services = service_entries(service_dirs, mtime);
    assert forall|i: int| 0 <= i < app_dir.len() implies entries[3 + i] == app_dir[i].placed(
        application_root(info.app@),
        mtime,
    ) by {}
    assert forall|which: int, i: int|
        0 <= which < service_dirs.len() && 0 <= i < service_dirs[which].tree@.len() implies (
    #[trigger] held(entries)[3 + app_dir.len() + service_offset(service_dirs, which, mtime) + i])
        == (#[trigger] service_dirs[which].tree@[i].placed(
        service_root(service_dirs[which].info->0.id@),
        mtime,
    )).kept() by {
        service_tree_is_copied(service_dirs, which, mtime);
        let from = service_offset(service_dirs, which, mtime);
        let own = tree_entries(
            service_root(service_dirs[which].info->0.id@),
            service_dirs[which].tree@,
            mtime,
        );
        assert(services.subrange(from, from + own.len())[i] == own[i]);
        assert(entries[3 + app_dir.len() + from + i] == own[i]);
    }
}

/// The last entry that the data segment holds is `packageinfo.json`, and its
/// payload is the bytes that were given, as they are.
pub proof fn package_info_is_last(
    info: &PackageInfo,
    app_dir: Seq<TreeEntry>,
    service_dirs: Seq<ServiceDir>,
    package_info: Seq<u8>,
    mtime: u64,
)
    ensures
        held(data_entries(info, app_dir, service_dirs, package_info, mtime)).last()
            == package_info_entry(info.id@, package_info, mtime).kept(),
        held(data_entries(info, app_dir, service_dirs, package_info, mtime)).last().payload
            == package_info,
{
}

} // verus!
