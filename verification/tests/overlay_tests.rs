use sly::overlay::{map_to_overlay, plan_action, CommitStep, FileSystemAction, FsStep,
    OverlayEntry, OverlayError, OverlayFS, ReadSource, ShadowWorkspace};
use sly::path::{join, split};
use sly::text::{chars_of, string_of};

fn overlay() -> OverlayFS {
    OverlayFS::new("/work/project", "/tmp", "tx_1").expect("disjoint")
}

#[test]
fn overlay_directory_is_derived_from_the_id() {
    let o = overlay();
    assert_eq!(o.base_dir(), "/work/project");
    assert_eq!(o.overlay_dir(), "/tmp/sly_overlays/tx_1");
}

#[test]
fn overlapping_directories_are_refused() {
    assert_eq!(OverlayFS::new("/tmp", "/tmp", "a").err(), Some(OverlayError::Overlapping));
    assert_eq!(OverlayFS::new("/", "/tmp", "a").err(), Some(OverlayError::Overlapping));
    assert_eq!(
        OverlayFS::new("/tmp/sly_overlays/a/deep", "/tmp", "a").err(),
        Some(OverlayError::Overlapping)
    );
}

#[test]
fn relative_and_absolute_paths_map_to_the_same_place() {
    let o = overlay();
    assert_eq!(
        map_to_overlay(o.base_dir(), o.overlay_dir(), "config.toml"),
        Ok("/tmp/sly_overlays/tx_1/config.toml".to_string())
    );
    assert_eq!(
        map_to_overlay(o.base_dir(), o.overlay_dir(), "/work/project/src/./main.rs"),
        Ok("/tmp/sly_overlays/tx_1/src/main.rs".to_string())
    );
    assert_eq!(o.get_relative_path("/work/project//src/main.rs"), Ok("src/main.rs".to_string()));
    assert_eq!(o.get_relative_path("a/../b"), Ok("b".to_string()));
}

#[test]
fn paths_outside_the_workspace_are_refused() {
    let o = overlay();
    assert_eq!(
        map_to_overlay(o.base_dir(), o.overlay_dir(), "/etc/passwd"),
        Err(OverlayError::OutsideWorkspace)
    );
    assert_eq!(o.get_relative_path("../secret"), Err(OverlayError::OutsideWorkspace));
    assert_eq!(o.get_relative_path("/work/project/../x"), Err(OverlayError::OutsideWorkspace));
    assert_eq!(o.locate("/work/projectile/x").err(), Some(OverlayError::OutsideWorkspace));
}

#[test]
fn reads_prefer_the_overlay() {
    let o = overlay();
    let plan = o.locate("config.toml").expect("inside");
    assert_eq!(plan.overlay_path, "/tmp/sly_overlays/tx_1/config.toml");
    assert_eq!(plan.base_path, "/work/project/config.toml");
    assert_eq!(OverlayFS::read_source(true, true), ReadSource::Overlay);
    assert_eq!(OverlayFS::read_source(true, false), ReadSource::Overlay);
    assert_eq!(OverlayFS::read_source(false, true), ReadSource::Base);
    assert_eq!(OverlayFS::read_source(false, false), ReadSource::Missing);
}

#[test]
fn writes_land_in_the_overlay_with_their_parent() {
    let o = overlay();
    let t = o.write_target("src/deep/main.rs").expect("inside");
    assert_eq!(t.path, "/tmp/sly_overlays/tx_1/src/deep/main.rs");
    assert_eq!(t.parent, Some("/tmp/sly_overlays/tx_1/src/deep".to_string()));
    let root = o.write_target("/work/project").expect("inside");
    assert_eq!(root.path, "/tmp/sly_overlays/tx_1");
    assert_eq!(root.parent, None);
}

#[test]
fn commit_copies_every_file_onto_the_workspace() {
    let o = overlay();
    let entries = vec![
        OverlayEntry { parts: vec!["src".to_string()], is_dir: true },
        OverlayEntry { parts: vec!["src".to_string(), "main.rs".to_string()], is_dir: false },
        OverlayEntry { parts: vec!["config.toml".to_string()], is_dir: false },
    ];
    let steps = o.commit(&entries).expect("plain entries");
    assert_eq!(
        steps,
        vec![
            CommitStep::CreateDir { path: "/work/project".to_string() },
            CommitStep::CreateDir { path: "/work/project/src".to_string() },
            CommitStep::CopyFile {
                from: "/tmp/sly_overlays/tx_1/src/main.rs".to_string(),
                to: "/work/project/src/main.rs".to_string()
            },
            CommitStep::CopyFile {
                from: "/tmp/sly_overlays/tx_1/config.toml".to_string(),
                to: "/work/project/config.toml".to_string()
            },
        ]
    );
}

#[test]
fn commit_refuses_names_that_could_leave_the_workspace() {
    let o = overlay();
    for bad in ["..", ".", "", "a/b"] {
        let entries = vec![OverlayEntry { parts: vec![bad.to_string()], is_dir: false }];
        assert_eq!(o.commit(&entries).err(), Some(OverlayError::InvalidEntry));
    }
}

#[test]
fn actions_touch_the_overlay_only() {
    let o = overlay();
    let w = plan_action(
        &o,
        FileSystemAction::Write { path: "a/b.txt".to_string(), content: "hi".to_string() },
    );
    match w {
        Ok(FsStep::Write { parent, path, content }) => {
            assert_eq!(parent, Some("/tmp/sly_overlays/tx_1/a".to_string()));
            assert_eq!(path, "/tmp/sly_overlays/tx_1/a/b.txt");
            assert_eq!(content, "hi");
        }
        _ => panic!("write expected"),
    }
    let d = plan_action(&o, FileSystemAction::Delete { path: "/work/project/a".to_string() });
    match d {
        Ok(FsStep::Remove { path }) => assert_eq!(path, "/tmp/sly_overlays/tx_1/a"),
        _ => panic!("remove expected"),
    }
    let out = plan_action(&o, FileSystemAction::Delete { path: "/elsewhere".to_string() });
    assert_eq!(out.err(), Some(OverlayError::OutsideWorkspace));
}

#[test]
fn paths_split_and_join() {
    let parts = split(&chars_of("/a//b/./c/"));
    let names: Vec<String> = parts.iter().map(string_of).collect();
    assert_eq!(names, vec!["a", "b", "c"]);
    assert_eq!(string_of(&join(&chars_of("/x/"), &parts)), "/x/a/b/c");
    assert_eq!(string_of(&join(&chars_of(""), &parts)), "a/b/c");
}

#[test]
fn shadow_workspace_keeps_its_root() {
    assert_eq!(ShadowWorkspace::new("/tmp/shadow".to_string()).root, "/tmp/shadow");
}
