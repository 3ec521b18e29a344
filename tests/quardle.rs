use quark::pipeline::Action;
use quark::quardle::{Error, Quardle};

#[test]
fn quardle_new() {
    let quardle = Quardle::new("test1".to_string(), "container1".to_string(), false);
    assert_eq!(quardle.as_ref().unwrap().name, "test1");
    assert_eq!(quardle.as_ref().unwrap().container_image_url, "container1");
}

#[test]
fn quardle_get_work_dir() {
    let quardle = Quardle::new("this-should-be-a-directory".to_string(), "my-container".to_string(), false);
    assert_eq!(quardle.unwrap().get_work_dir(), "/tmp/quark/builds/this-should-be-a-directory/");
}

#[test]
fn quardle_request_uses_default_cmdline() {
    let q = Quardle::new("q".to_string(), "img".to_string(), true).unwrap();
    let r = q.request();
    assert_eq!(r.name, "q");
    assert_eq!(r.image, "img");
    assert!(r.offline);
    assert!(r.kernel_cmdline.is_none());
}

#[test]
fn quardle_layout_paths() {
    let q = Quardle::new("demo".to_string(), "img".to_string(), false).unwrap();
    let l = q.layout();
    assert_eq!(l.work_dir, "/tmp/quark/builds/demo/");
    assert_eq!(l.kaps, "/tmp/quark/builds/demo/kaps");
    assert_eq!(l.kernel, "/tmp/quark/builds/demo/vmlinux.bin");
    assert_eq!(l.rootfs, "/tmp/quark/builds/demo/rootfs");
    assert_eq!(l.bundle, "/tmp/quark/builds/demo/bundle");
    assert_eq!(l.initramfs, "/tmp/quark/builds/demo/initramfs.img");
    assert_eq!(l.initramfs_part, "/tmp/quark/builds/demo/initramfs.img.part");
    assert_eq!(l.manifest, "/tmp/quark/builds/demo/quark.json");
    assert_eq!(l.manifest_part, "/tmp/quark/builds/demo/quark.json.part");
    assert_eq!(l.archive, "demo.qrk");
    assert_eq!(l.archive_part, "demo.qrk.part");
}

#[test]
fn quardle_plan_delete_after() {
    let q = Quardle::new("demo".to_string(), "img".to_string(), false).unwrap();
    let full = quark::pipeline::Staging {
        kaps: true,
        kernel: true,
        bundle: false,
        rootfs: true,
        initramfs_part: false,
        initramfs: true,
        manifest: false,
        archive_part: false,
        archive: false,
    };
        assert_eq!(q.plan(full, None), vec![Action::WriteManifest, Action::PackArchive, Action::CommitArchive]);
    assert_eq!(q.plan(full, Some(false)), vec![Action::WriteManifest, Action::PackArchive, Action::CommitArchive]);
    assert_eq!(
        q.plan(full, Some(true)),
        vec![
            Action::WriteManifest,
            Action::PackArchive,
            Action::CommitArchive,
            Action::RemoveRootfs,
            Action::RemoveBundle,
            Action::RemoveInitramfs,
            Action::RemoveManifest,
        ]
    );
}

#[test]
fn error_variants_are_distinct() {
    assert_ne!(Error::Tool, Error::Filesystem);
    assert_ne!(Error::Serialization, Error::SourceControl);
}
