use std::io::Read;

use ares_core::packaging::archive::ArBuilder;
use ares_core::packaging::control::{AppendControl, ControlInfo};
use ares_core::packaging::data::{
    append_tree, mkdirp, AppendData, PackageInfo, ServiceDir, ServiceInfo, TreeEntry,
};
use ares_core::packaging::package::build_package;
use ares_core::packaging::segment::{EntryKind, PackageError, TarBuilder};
use ares_core::packaging::tree::misplaced_entry;

const MTIME: u64 = 1_700_000_000;

struct Member {
    name: String,
    mode: u32,
    mtime: u64,
    payload: Vec<u8>,
}

struct Entry {
    path: String,
    kind: tar::EntryType,
    mode: u32,
    mtime: u64,
    size: u64,
    payload: Vec<u8>,
}

fn members(bytes: &[u8]) -> Vec<Member> {
    let mut reader = ar::Archive::new(bytes);
    let mut found = Vec::new();
    while let Some(member) = reader.next_entry() {
        let mut member = member.unwrap();
        let mut payload = Vec::new();
        member.read_to_end(&mut payload).unwrap();
        found.push(Member {
            name: String::from_utf8(member.header().identifier().to_vec()).unwrap(),
            mode: member.header().mode(),
            mtime: member.header().mtime(),
            payload,
        });
    }
    found
}

fn entries(packed: &[u8]) -> Vec<Entry> {
    let mut stream = Vec::new();
    flate2::read::GzDecoder::new(packed).read_to_end(&mut stream).unwrap();
    let mut reader = tar::Archive::new(&stream[..]);
    let mut found = Vec::new();
    for entry in reader.entries().unwrap() {
        let mut entry = entry.unwrap();
        let mut payload = Vec::new();
        entry.read_to_end(&mut payload).unwrap();
        found.push(Entry {
            path: String::from_utf8(entry.path_bytes().to_vec()).unwrap(),
            kind: entry.header().entry_type(),
            mode: entry.header().mode().unwrap(),
            mtime: entry.header().mtime().unwrap(),
            size: entry.header().size().unwrap(),
            payload,
        });
    }
    found
}

fn paths(found: &[Entry]) -> Vec<&str> {
    found.iter().map(|e| e.path.as_str()).collect()
}

fn control() -> ControlInfo {
    ControlInfo {
        package: String::from("com.example.app"),
        version: String::from("1.2.3"),
        installed_size: 4096,
        architecture: String::from("all"),
    }
}

fn package() -> PackageInfo {
    PackageInfo { id: String::from("com.example.app"), app: String::from("com.example.app") }
}

fn dir(path: &str) -> TreeEntry {
    TreeEntry { path: String::from(path), kind: EntryKind::Directory, mode: 0o40755, payload: Vec::new() }
}

fn file(path: &str, mode: u32, payload: &[u8]) -> TreeEntry {
    TreeEntry { path: String::from(path), kind: EntryKind::File, mode, payload: payload.to_vec() }
}

fn app_tree() -> Vec<TreeEntry> {
    vec![
        dir(""),
        file("appinfo.json", 0o100644, b"{\"id\":\"com.example.app\"}"),
        dir("assets"),
        file("assets/icon.png", 0o100600, &[0x89, b'P', b'N', b'G', 0, 1, 2, 255]),
        file("main", 0o100755, b"#!/bin/sh\nexit 0\n"),
    ]
}

fn service(id: Option<&str>) -> ServiceDir {
    ServiceDir {
        info: id.map(|id| ServiceInfo { id: String::from(id) }),
        tree: vec![
            dir(""),
            file("services.json", 0o100644, b"{\"id\":\"com.example.app.service\"}"),
            file("service.js", 0o100644, b"// service\n"),
        ],
    }
}

fn package_info_json() -> Vec<u8> {
    let mut object = serde_json::Map::new();
    object.insert(String::from("id"), serde_json::Value::String(String::from("com.example.app")));
    object.insert(String::from("app"), serde_json::Value::String(String::from("com.example.app")));
    object.insert(String::from("version"), serde_json::Value::String(String::from("1.2.3")));
    serde_json::to_vec(&serde_json::Value::Object(object)).unwrap()
}

#[test]
fn control_record_has_the_fixed_fields_in_order() {
    let expected = "Package: com.example.app\n\
Version: 1.2.3\n\
Section: misc\n\
Priority: optional\n\
Architecture: all\n\
Installed-Size: 4096\n\
Maintainer: N/A <nobody@example.com>\n\
Description: This is a webOS application.\n\
webOS-Package-Format-Version: 2\n\
webOS-Packager-Version: x.y.x\n";
    assert_eq!(control().to_string(), expected);
}

#[test]
fn control_record_does_not_escape_values() {
    let info = ControlInfo {
        package: String::from("a: b"),
        version: String::from(""),
        installed_size: 0,
        architecture: String::from("arm\u{e9}"),
    };
    let text = info.to_string();
    assert!(text.starts_with("Package: a: b\nVersion: \nSection: misc\n"));
    assert!(text.contains("Architecture: arm\u{e9}\nInstalled-Size: 0\n"));
}

#[test]
fn control_record_writes_the_largest_size() {
    let info = ControlInfo {
        package: String::from("p"),
        version: String::from("v"),
        installed_size: u64::MAX,
        architecture: String::from("all"),
    };
    assert!(info.to_string().contains("Installed-Size: 18446744073709551615\n"));
}

#[test]
fn control_segment_is_one_member_with_one_file() {
    let mut archive = ArBuilder::new();
    archive.append_control(&control(), MTIME).unwrap();
    let found = members(&archive.into_bytes());
    assert_eq!(found.len(), 1);
    assert_eq!(found[0].name, "control.tar.gz");
    assert_eq!(found[0].mode, 0o100644);
    assert_eq!(found[0].mtime, MTIME);
    assert_eq!(&found[0].payload[..2], &[0x1f, 0x8b]);

    let inner = entries(&found[0].payload);
    assert_eq!(inner.len(), 1);
    assert_eq!(inner[0].path, "control");
    assert_eq!(inner[0].kind, tar::EntryType::Regular);
    assert_eq!(inner[0].mode, 0o100644);
    assert_eq!(inner[0].mtime, MTIME);
    assert_eq!(inner[0].size, control().to_string().len() as u64);
    assert_eq!(inner[0].payload, control().to_string().into_bytes());
}

#[test]
fn an_archive_without_members_is_empty() {
    assert!(ArBuilder::new().into_bytes().is_empty());
}

#[test]
fn members_keep_their_order_and_fields() {
    let mut archive = ArBuilder::new();
    archive.append("first", 0o644, 7, b"odd").unwrap();
    archive.append("second", 0o100755, 9, b"even").unwrap();
    let found = members(&archive.into_bytes());
    assert_eq!(found.len(), 2);
    assert_eq!(found[0].name, "first");
    assert_eq!(found[0].mode, 0o644);
    assert_eq!(found[0].mtime, 7);
    assert_eq!(found[0].payload, b"odd");
    assert_eq!(found[1].name, "second");
    assert_eq!(found[1].mode, 0o100755);
    assert_eq!(found[1].mtime, 9);
    assert_eq!(found[1].payload, b"even");
}

#[test]
fn a_member_that_does_not_fit_is_refused() {
    let mut archive = ArBuilder::new();
    archive.append("kept", 0o644, 1, b"k").unwrap();
    let wide = [
        ("m", 0o644, 1_000_000_000_000, "time"),
        ("m", 0o644, u64::MAX, "time"),
        ("m", 0o100000000, 1, "mode"),
        ("m", u32::MAX, 1, "mode"),
        ("seventeen.letters", 0o644, 1, "long name"),
        ("a b", 0o644, 1, "blank"),
        ("a/b", 0o644, 1, "slash"),
        ("", 0o644, 1, "empty name"),
        ("caf\u{e9}", 0o644, 1, "not ascii"),
    ];
    for (name, mode, mtime, what) in wide {
        let refused = archive.append(name, mode, mtime, b"x");
        assert!(matches!(refused, Err(PackageError::Header)), "{}", what);
    }
    let found = members(&archive.into_bytes());
    assert_eq!(found.len(), 1);
    assert_eq!(found[0].name, "kept");
}

#[test]
fn the_widest_member_that_fits_reads_back() {
    let mut archive = ArBuilder::new();
    archive.append("sixteen.letters_", 0o77777777, 999_999_999_999, b"wide").unwrap();
    archive.append("after", 0o644, 2, b"next").unwrap();
    let found = members(&archive.into_bytes());
    assert_eq!(found.len(), 2);
    assert_eq!(found[0].name, "sixteen.letters_");
    assert_eq!(found[0].mode, 0o77777777);
    assert_eq!(found[0].mtime, 999_999_999_999);
    assert_eq!(found[0].payload, b"wide");
    assert_eq!(found[1].name, "after");
    assert_eq!(found[1].payload, b"next");
}

#[test]
fn a_build_time_that_does_not_fit_is_refused() {
    let mut archive = ArBuilder::new();
    let refused = archive.append_control(&control(), 1_000_000_000_000);
    assert!(matches!(refused, Err(PackageError::Header)));
    assert!(archive.into_bytes().is_empty());
    let refused =
        build_package(&control(), &package(), &app_tree(), &Vec::new(), b"{}", u64::MAX);
    assert!(matches!(refused, Err(PackageError::Header)));
}

#[test]
fn the_data_segment_takes_any_build_time() {
    let mut archive = ArBuilder::new();
    archive.append_data(&package(), &Vec::new(), &Vec::new(), b"{}", u64::MAX).unwrap();
    let found = members(&archive.into_bytes());
    assert_eq!(found[0].mtime, 0);
    for entry in entries(&found[0].payload) {
        assert_eq!(entry.mtime, u64::MAX);
    }
}

#[test]
fn a_mode_keeps_its_last_seven_octal_digits() {
    let mut tar = TarBuilder::new();
    tar.append("wide", EntryKind::File, 0o12340100644, MTIME, b"w").unwrap();
    tar.append("full", EntryKind::File, 0o7777777, MTIME, b"f").unwrap();
    tar.append("most", EntryKind::File, u32::MAX, MTIME, b"m").unwrap();
    let found = entries(&tar.finish().unwrap());
    assert_eq!(found[0].mode, 0o0100644);
    assert_eq!(found[1].mode, 0o7777777);
    assert_eq!(found[2].mode, 0o7777777);
}

#[test]
fn a_plain_path_is_stored_as_it_is() {
    let longest = format!("{}/{}", "d".repeat(49), "f".repeat(50));
    assert_eq!(longest.len(), 100);
    let deepest = format!("{}/", "d".repeat(99));
    let names = ["control", "a/b/c", "dir/", "a.b/..c/d..", longest.as_str(), deepest.as_str()];
    let mut tar = TarBuilder::new();
    for name in names {
        tar.append(name, EntryKind::File, 0o644, MTIME, b"x").unwrap();
    }
    let found = entries(&tar.finish().unwrap());
    assert_eq!(paths(&found), names);
}

#[test]
fn another_path_is_stored_without_dots_and_doubled_slashes() {
    let mut tar = TarBuilder::new();
    tar.append("a/./b", EntryKind::File, 0o644, MTIME, b"x").unwrap();
    tar.append("a//c/", EntryKind::Directory, 0o755, MTIME, b"").unwrap();
    tar.append("./d", EntryKind::File, 0o644, MTIME, b"x").unwrap();
    let found = entries(&tar.finish().unwrap());
    assert_eq!(paths(&found), ["a/b", "a/c/", "d"]);
}

#[test]
fn mkdirp_passes_over_a_dot() {
    let mut tar = TarBuilder::new();
    mkdirp(&mut tar, "a/./b", None, MTIME).unwrap();
    let found = entries(&tar.finish().unwrap());
    assert_eq!(paths(&found), ["a/", "a/b/"]);
}

#[test]
fn mkdirp_compares_the_stop_by_segments() {
    let mut tar = TarBuilder::new();
    tar.append("kept", EntryKind::File, 0o644, MTIME, b"k").unwrap();
    mkdirp(&mut tar, "a/./b", Some("a/b"), MTIME).unwrap();
    mkdirp(&mut tar, "", Some("a/b"), MTIME).unwrap();
    mkdirp(&mut tar, "", None, MTIME).unwrap();
    mkdirp(&mut tar, "usr/palm", Some("usr/palm/"), MTIME).unwrap();
    let found = entries(&tar.finish().unwrap());
    assert_eq!(paths(&found), ["kept"]);
}

#[test]
fn mkdirp_below_a_stop_joins_the_run_down_to_it() {
    let mut split = TarBuilder::new();
    mkdirp(&mut split, "a/b", None, MTIME).unwrap();
    mkdirp(&mut split, "a/./b/c", Some("a/b"), MTIME).unwrap();
    let mut whole = TarBuilder::new();
    mkdirp(&mut whole, "a/./b/c", None, MTIME).unwrap();
    let split = entries(&split.finish().unwrap());
    let whole = entries(&whole.finish().unwrap());
    assert_eq!(paths(&split), ["a/", "a/b/", "a/b/c/"]);
    assert_eq!(paths(&split), paths(&whole));
}

#[test]
fn a_package_named_dot_has_no_directory_twice() {
    let dotted = PackageInfo { id: String::from("."), app: String::from("app") };
    let mut archive = ArBuilder::new();
    archive.append_data(&dotted, &Vec::new(), &Vec::new(), b"{}", MTIME).unwrap();
    let found = members(&archive.into_bytes());
    let inner = entries(&found[0].payload);
    assert_eq!(
        paths(&inner),
        [
            "usr/",
            "usr/palm/",
            "usr/palm/applications/",
            "usr/palm/packages/",
            "usr/palm/packages/packageinfo.json",
        ]
    );
}

#[test]
fn mkdirp_makes_every_directory_top_down() {
    let mut tar = TarBuilder::new();
    mkdirp(&mut tar, "usr/palm/applications/", None, MTIME).unwrap();
    let found = entries(&tar.finish().unwrap());
    assert_eq!(paths(&found), ["usr/", "usr/palm/", "usr/palm/applications/"]);
    for entry in &found {
        assert_eq!(entry.kind, tar::EntryType::Directory);
        assert_eq!(entry.mode, 0o755);
        assert_eq!(entry.mtime, MTIME);
        assert_eq!(entry.size, 0);
        assert!(entry.payload.is_empty());
    }
}

#[test]
fn mkdirp_stops_below_the_stop_ancestor() {
    let mut tar = TarBuilder::new();
    mkdirp(&mut tar, "usr/palm/packages/com.example.app/", Some("usr/palm"), MTIME).unwrap();
    let found = entries(&tar.finish().unwrap());
    assert_eq!(paths(&found), ["usr/palm/packages/", "usr/palm/packages/com.example.app/"]);
}

#[test]
fn mkdirp_ignores_a_stop_that_is_no_ancestor() {
    let mut tar = TarBuilder::new();
    mkdirp(&mut tar, "a/b", Some("x"), MTIME).unwrap();
    let found = entries(&tar.finish().unwrap());
    assert_eq!(paths(&found), ["a/", "a/b/"]);
}

#[test]
fn mkdirp_of_the_stop_itself_makes_nothing() {
    let mut tar = TarBuilder::new();
    mkdirp(&mut tar, "usr/palm/", Some("usr/palm"), MTIME).unwrap();
    assert!(entries(&tar.finish().unwrap()).is_empty());
}

#[test]
fn mkdirp_reports_a_path_that_tar_refuses() {
    let mut tar = TarBuilder::new();
    let refused = mkdirp(&mut tar, "usr/../etc", None, MTIME);
    assert!(matches!(refused, Err(PackageError::Path(_))));
}

#[test]
fn a_refusal_leaves_what_was_taken() {
    let mut tar = TarBuilder::new();
    tar.append("kept", EntryKind::File, 0o644, MTIME, b"k").unwrap();
    assert!(matches!(mkdirp(&mut tar, "ok/../x", None, MTIME), Err(PackageError::Path(_))));
    assert!(matches!(
        tar.append("/absolute", EntryKind::File, 0o644, MTIME, b"a"),
        Err(PackageError::Path(_))
    ));
    assert!(matches!(
        tar.append("", EntryKind::File, 0o644, MTIME, b"a"),
        Err(PackageError::Path(_))
    ));
    let found = entries(&tar.finish().unwrap());
    assert_eq!(paths(&found), ["kept", "ok/"]);
}

#[test]
fn a_tree_out_of_order_is_not_copied() {
    let cases: Vec<(Vec<TreeEntry>, usize)> = vec![
        (vec![file("main", 0o100644, b"m")], 0),
        (vec![dir(""), file("assets/icon", 0o100644, b"i"), dir("assets")], 1),
        (vec![dir(""), file("x", 0o100644, b"x"), file("x/y", 0o100644, b"y")], 2),
        (vec![dir(""), dir("a"), dir("a/b/c"), dir("a/b")], 2),
    ];
    for (tree, place) in cases {
        let mut tar = TarBuilder::new();
        tar.append("kept", EntryKind::File, 0o644, MTIME, b"k").unwrap();
        match append_tree(&mut tar, "root", &tree, MTIME) {
            Err(PackageError::MisplacedEntry { service: None, index }) => assert_eq!(index, place),
            other => panic!("unexpected: {:?}", other),
        }
        assert_eq!(paths(&entries(&tar.finish().unwrap())), ["kept"]);
    }
}

#[test]
fn a_tree_in_order_is_found_in_order() {
    assert_eq!(misplaced_entry(&app_tree()), None);
    assert_eq!(misplaced_entry(&Vec::new()), None);
    assert_eq!(misplaced_entry(&vec![dir("")]), None);
    assert_eq!(misplaced_entry(&vec![dir(""), dir("a"), dir("a/b"), file("a/b/c", 0, b"")]), None);
    assert_eq!(misplaced_entry(&vec![dir(""), dir("a"), file("b", 0, b""), dir("a/b")]), None);
    assert_eq!(misplaced_entry(&vec![dir("a"), dir("")]), Some(0));
}

#[test]
fn a_service_tree_out_of_order_appends_nothing() {
    let mut second = service(Some("two"));
    second.tree.swap(0, 1);
    let services = vec![service(Some("one")), second];
    let mut archive = ArBuilder::new();
    let failed = archive.append_data(&package(), &app_tree(), &services, b"{}", MTIME);
    assert!(matches!(
        failed,
        Err(PackageError::MisplacedEntry { service: Some(1), index: 0 })
    ));
    assert!(archive.into_bytes().is_empty());

    let mut app = app_tree();
    app.swap(2, 3);
    let failed = archive_of(&app, &services);
    assert!(matches!(failed, Err(PackageError::MisplacedEntry { service: None, index: 2 })));

    let unknown = vec![services[1].clone(), service(None)];
    let failed = archive_of(&app, &unknown);
    assert!(matches!(failed, Err(PackageError::MissingServiceInfo { index: 1 })));
}

fn archive_of(app: &Vec<TreeEntry>, services: &Vec<ServiceDir>) -> Result<(), PackageError> {
    ArBuilder::new().append_data(&package(), app, services, b"{}", MTIME)
}

#[test]
fn a_tree_is_copied_below_its_root() {
    let mut tar = TarBuilder::new();
    append_tree(&mut tar, "usr/palm/applications/com.example.app", &app_tree(), MTIME).unwrap();
    let found = entries(&tar.finish().unwrap());
    assert_eq!(
        paths(&found),
        [
            "usr/palm/applications/com.example.app/",
            "usr/palm/applications/com.example.app/appinfo.json",
            "usr/palm/applications/com.example.app/assets",
            "usr/palm/applications/com.example.app/assets/icon.png",
            "usr/palm/applications/com.example.app/main",
        ]
    );
    let tree = app_tree();
    for (entry, source) in found.iter().zip(tree.iter()) {
        assert_eq!(entry.payload, source.payload);
        assert_eq!(entry.size, source.payload.len() as u64);
        assert_eq!(entry.mode, source.mode & 0o7777777);
        assert_eq!(entry.mtime, MTIME);
        let kind = match source.kind {
            EntryKind::Directory => tar::EntryType::Directory,
            EntryKind::File => tar::EntryType::Regular,
        };
        assert_eq!(entry.kind, kind);
    }
}

#[test]
fn a_long_path_is_kept_whole() {
    let name = "n".repeat(150);
    let mut tar = TarBuilder::new();
    tar.append(&name, EntryKind::File, 0o644, MTIME, b"x").unwrap();
    let found = entries(&tar.finish().unwrap());
    assert_eq!(found.len(), 1);
    assert_eq!(found[0].path, name);
    assert_eq!(found[0].payload, b"x");
}

#[test]
fn data_segment_has_the_entries_in_order() {
    let mut archive = ArBuilder::new();
    let json = package_info_json();
    archive
        .append_data(&package(), &app_tree(), &vec![service(Some("com.example.app.service"))], &json, MTIME)
        .unwrap();
    let found = members(&archive.into_bytes());
    assert_eq!(found.len(), 1);
    assert_eq!(found[0].name, "data.tar.gz");
    assert_eq!(found[0].mode, 0);
    assert_eq!(found[0].mtime, 0);

    let inner = entries(&found[0].payload);
    assert_eq!(
        paths(&inner),
        [
            "usr/",
            "usr/palm/",
            "usr/palm/applications/",
            "usr/palm/applications/com.example.app/",
            "usr/palm/applications/com.example.app/appinfo.json",
            "usr/palm/applications/com.example.app/assets",
            "usr/palm/applications/com.example.app/assets/icon.png",
            "usr/palm/applications/com.example.app/main",
            "usr/palm/services/com.example.app.service/",
            "usr/palm/services/com.example.app.service/services.json",
            "usr/palm/services/com.example.app.service/service.js",
            "usr/palm/packages/",
            "usr/palm/packages/com.example.app/",
            "usr/palm/packages/com.example.app/packageinfo.json",
        ]
    );
    for entry in &inner {
        assert_eq!(entry.mtime, MTIME);
    }
    let last = inner.last().unwrap();
    assert_eq!(last.kind, tar::EntryType::Regular);
    assert_eq!(last.mode, 0o644);
    assert_eq!(last.payload, json);
}

#[test]
fn data_segment_reproduces_the_trees() {
    let services = vec![service(Some("one")), service(Some("two"))];
    let mut archive = ArBuilder::new();
    archive.append_data(&package(), &app_tree(), &services, b"{}", MTIME).unwrap();
    let found = members(&archive.into_bytes());
    let inner = entries(&found[0].payload);
    for source in app_tree() {
        let path = format!("usr/palm/applications/com.example.app/{}", source.path);
        let entry = inner.iter().find(|e| e.path == path).unwrap();
        assert_eq!(entry.payload, source.payload);
    }
    for id in ["one", "two"] {
        for source in service(Some(id)).tree {
            let path = format!("usr/palm/services/{}/{}", id, source.path);
            let entry = inner.iter().find(|e| e.path == path).unwrap();
            assert_eq!(entry.payload, source.payload);
        }
    }
}

#[test]
fn data_segment_has_no_directory_twice() {
    let mut archive = ArBuilder::new();
    archive
        .append_data(&package(), &app_tree(), &vec![service(Some("s"))], b"{}", MTIME)
        .unwrap();
    let found = members(&archive.into_bytes());
    let inner = entries(&found[0].payload);
    let listed = paths(&inner);
    for (i, path) in listed.iter().enumerate() {
        assert!(!listed[..i].contains(path), "{} occurs twice", path);
    }
}

#[test]
fn package_info_survives_the_round_trip() {
    let json = package_info_json();
    let mut archive = ArBuilder::new();
    archive.append_data(&package(), &Vec::new(), &Vec::new(), &json, MTIME).unwrap();
    let found = members(&archive.into_bytes());
    let inner = entries(&found[0].payload);
    let last = inner.last().unwrap();
    assert_eq!(last.path, "usr/palm/packages/com.example.app/packageinfo.json");
    let read: serde_json::Value = serde_json::from_slice(&last.payload).unwrap();
    let written: serde_json::Value = serde_json::from_slice(&json).unwrap();
    assert_eq!(read, written);
    assert_eq!(read.get("id").unwrap().as_str(), Some("com.example.app"));
}

#[test]
fn missing_service_info_appends_nothing() {
    let mut archive = ArBuilder::new();
    archive.append_control(&control(), MTIME).unwrap();
    let services = vec![service(Some("first")), service(None), service(None)];
    let failed = archive.append_data(&package(), &app_tree(), &services, b"{}", MTIME);
    assert!(matches!(failed, Err(PackageError::MissingServiceInfo { index: 1 })));
    let found = members(&archive.into_bytes());
    assert_eq!(found.len(), 1);
    assert_eq!(found[0].name, "control.tar.gz");
}

#[test]
fn a_refused_path_appends_nothing() {
    let mut archive = ArBuilder::new();
    let bad = PackageInfo { id: String::from(".."), app: String::from("app") };
    let failed = archive.append_data(&bad, &app_tree(), &Vec::new(), b"{}", MTIME);
    assert!(matches!(failed, Err(PackageError::Path(_))));
    assert!(archive.into_bytes().is_empty());
}

#[test]
fn missing_service_info_comes_before_a_refused_path() {
    let mut archive = ArBuilder::new();
    let bad = PackageInfo { id: String::from(".."), app: String::from("app") };
    let failed = archive.append_data(&bad, &app_tree(), &vec![service(None)], b"{}", MTIME);
    assert!(matches!(failed, Err(PackageError::MissingServiceInfo { index: 0 })));
}

#[test]
fn a_package_has_two_members_that_decode() {
    let json = package_info_json();
    let bytes = build_package(
        &control(),
        &package(),
        &app_tree(),
        &vec![service(Some("com.example.app.service"))],
        &json,
        MTIME,
    )
    .unwrap();
    assert_eq!(&bytes[..8], b"!<arch>\n");
    let found = members(&bytes);
    assert_eq!(found.len(), 2);
    assert_eq!(found[0].name, "control.tar.gz");
    assert_eq!(found[1].name, "data.tar.gz");
    assert_eq!(paths(&entries(&found[0].payload)), ["control"]);
    let inner = entries(&found[1].payload);
    assert!(inner.iter().any(|e| e.path.starts_with("usr/palm/applications/com.example.app/")));
    assert!(inner.iter().any(|e| e.path.starts_with("usr/palm/services/com.example.app.service/")));
    assert!(inner.iter().any(|e| e.path == "usr/palm/packages/com.example.app/packageinfo.json"));
}

#[test]
fn a_package_is_not_built_without_service_info() {
    let failed = build_package(
        &control(),
        &package(),
        &app_tree(),
        &vec![service(None)],
        b"{}",
        MTIME,
    );
    assert!(matches!(failed, Err(PackageError::MissingServiceInfo { index: 0 })));
}

#[test]
fn the_same_parts_give_the_same_package() {
    let build = || {
        build_package(&control(), &package(), &app_tree(), &Vec::new(), b"{}", MTIME).unwrap()
    };
    assert_eq!(build(), build());
}
