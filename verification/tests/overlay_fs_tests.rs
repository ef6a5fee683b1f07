use sly::overlay::{CommitStep, OverlayEntry, OverlayFS, ReadSource};
use std::collections::BTreeMap;

/// A disk that holds files only: path to content.
type Disk = BTreeMap<String, String>;

fn read_file(disk: &Disk, overlay: &OverlayFS, path: &str) -> Option<String> {
    let plan = overlay.locate(path).ok()?;
    let source = OverlayFS::read_source(
        disk.contains_key(&plan.overlay_path),
        disk.contains_key(&plan.base_path),
    );
    match source {
        ReadSource::Overlay => disk.get(&plan.overlay_path).cloned(),
        ReadSource::Base => disk.get(&plan.base_path).cloned(),
        ReadSource::Missing => None,
    }
}

fn write_file(disk: &mut Disk, overlay: &OverlayFS, path: &str, content: &str) {
    let target = overlay.write_target(path).expect("inside the workspace");
    disk.insert(target.path, content.to_string());
}

fn listing(disk: &Disk, overlay: &OverlayFS) -> Vec<OverlayEntry> {
    let prefix = format!("{}/", overlay.overlay_dir());
    disk.keys()
        .filter_map(|p| p.strip_prefix(&prefix))
        .map(|rel| OverlayEntry {
            parts: rel.split('/').map(|s| s.to_string()).collect(),
            is_dir: false,
        })
        .collect()
}

fn commit(disk: &mut Disk, overlay: &OverlayFS) {
    let entries = listing(disk, overlay);
    for step in overlay.commit(&entries).expect("plain names") {
        if let CommitStep::CopyFile { from, to } = step {
            let content = disk.get(&from).cloned().expect("source");
            disk.insert(to, content);
        }
    }
}

fn rollback(disk: &mut Disk, overlay: &OverlayFS) {
    let prefix = format!("{}/", overlay.overlay_dir());
    disk.retain(|p, _| !p.starts_with(&prefix));
}

#[test]
fn test_overlay_transaction() {
    let mut disk = Disk::new();
    let base_file = "/tmp/sly_test_safety/config.toml";
    disk.insert(base_file.to_string(), "version = 1".to_string());

    let overlay = OverlayFS::new("/tmp/sly_test_safety", "/var/tmp", "tx_1").expect("disjoint");

    // 1. Read base through overlay
    assert_eq!(read_file(&disk, &overlay, base_file), Some("version = 1".to_string()));

    // 2. Write to overlay (shadowed)
    write_file(&mut disk, &overlay, base_file, "version = 2");

    // 3. Read should show new version
    assert_eq!(read_file(&disk, &overlay, base_file), Some("version = 2".to_string()));

    // 4. Base should still be old
    assert_eq!(disk.get(base_file), Some(&"version = 1".to_string()));

    // 5. Commit
    commit(&mut disk, &overlay);

    // 6. Base should now be updated
    assert_eq!(disk.get(base_file), Some(&"version = 2".to_string()));
}

#[test]
fn overlay_shadow_read() {
    let mut disk = Disk::new();
    disk.insert("/ws/config.toml".to_string(), "version = 1".to_string());
    let overlay = OverlayFS::new("/ws", "/tmp", "s").expect("disjoint");
    assert_eq!(read_file(&disk, &overlay, "config.toml"), Some("version = 1".to_string()));
    write_file(&mut disk, &overlay, "config.toml", "version = 2");
    assert_eq!(read_file(&disk, &overlay, "config.toml"), Some("version = 2".to_string()));
    assert_eq!(disk.get("/ws/config.toml"), Some(&"version = 1".to_string()));
    commit(&mut disk, &overlay);
    assert_eq!(disk.get("/ws/config.toml"), Some(&"version = 2".to_string()));
}

#[test]
fn rollback_leaves_the_workspace_as_it_was() {
    let mut disk = Disk::new();
    disk.insert("/ws/a.txt".to_string(), "old".to_string());
    let before = disk.clone();
    let overlay = OverlayFS::new("/ws", "/tmp", "r").expect("disjoint");
    write_file(&mut disk, &overlay, "a.txt", "new");
    write_file(&mut disk, &overlay, "dir/b.txt", "b");
    assert_eq!(read_file(&disk, &overlay, "dir/b.txt"), Some("b".to_string()));
    rollback(&mut disk, &overlay);
    assert_eq!(disk, before);
    rollback(&mut disk, &overlay);
    assert_eq!(disk, before);
    assert_eq!(read_file(&disk, &overlay, "a.txt"), Some("old".to_string()));
    assert_eq!(read_file(&disk, &overlay, "dir/b.txt"), None);
}

#[test]
fn commit_promotes_every_overlay_file() {
    let mut disk = Disk::new();
    disk.insert("/ws/keep.txt".to_string(), "k".to_string());
    let overlay = OverlayFS::new("/ws", "/tmp", "c").expect("disjoint");
    write_file(&mut disk, &overlay, "src/a.rs", "a");
    write_file(&mut disk, &overlay, "src/deep/b.rs", "b");
    write_file(&mut disk, &overlay, "/ws/c.md", "c");
    commit(&mut disk, &overlay);
    for (path, content) in [("src/a.rs", "a"), ("src/deep/b.rs", "b"), ("c.md", "c")] {
        let plan = overlay.locate(path).expect("inside");
        assert_eq!(disk.get(&plan.base_path), Some(&content.to_string()));
        assert_eq!(disk.get(&plan.base_path), disk.get(&plan.overlay_path));
    }
    assert_eq!(disk.get("/ws/keep.txt"), Some(&"k".to_string()));
}
