use quark::layout::{archive_name, init_script, StagingLayout};
use quark::manifest::{BuildRequest, Manifest};
use quark::pipeline::{plan_build, Action, Staging, Step};

fn empty() -> Staging {
    Staging {
        kaps: false,
        kernel: false,
        bundle: false,
        rootfs: false,
        initramfs_part: false,
        initramfs: false,
        manifest: false,
        archive_part: false,
        archive: false,
    }
}

fn complete(offline: bool) -> Staging {
    Staging { kaps: true, kernel: true, bundle: offline, rootfs: true, initramfs: true, ..empty() }
}

/// What a list of actions leaves, by the same rules the planner is proved against.
fn run(mut s: Staging, plan: &[Action]) -> Staging {
    for a in plan {
        match a {
            Action::CompileKaps => s.kaps = true,
            Action::BuildKernel => s.kernel = true,
            Action::MakeBundle => s.bundle = true,
            Action::ExtractRootfs => s.rootfs = true,
            Action::PackInitramfs => s.initramfs_part = true,
            Action::CommitInitramfs => {
                if s.initramfs_part {
                    s.initramfs = true;
                    s.initramfs_part = false;
                }
            }
            Action::WriteManifest => s.manifest = true,
            Action::PackArchive => s.archive_part = true,
            Action::CommitArchive => {
                if s.archive_part {
                    s.archive = true;
                    s.archive_part = false;
                }
            }
            Action::RemoveRootfs => s.rootfs = false,
            Action::RemoveBundle => s.bundle = false,
            Action::RemoveInitramfs => s.initramfs = false,
            Action::RemoveManifest => s.manifest = false,
            _ => {}
        }
    }
    s
}

#[test]
fn full_offline_build_runs_every_step_in_order() {
    let plan = plan_build(true, empty(), false);
    assert_eq!(
        plan,
        vec![
            Action::CloneKaps, Action::CheckoutKaps, Action::CompileKaps, Action::BuildKernel, Action::MakeBundle, Action::ExtractRootfs, Action::InstallKaps,
            Action::CopyBundle, Action::WriteInit, Action::PackInitramfs, Action::CommitInitramfs, Action::WriteManifest, Action::PackArchive,
            Action::CommitArchive,
        ]
    );
    let steps: Vec<Step> = plan.iter().map(|a| a.step()).collect();
    assert_eq!(steps[0], Step::Kaps);
    assert_eq!(steps[3], Step::Kernel);
    assert_eq!(steps[4], Step::Bundle);
    assert_eq!(steps[10], Step::Initramfs);
    assert_eq!(steps[11], Step::Manifest);
    assert_eq!(steps[13], Step::Archive);
}

#[test]
fn online_build_makes_no_bundle() {
    let plan = plan_build(false, empty(), true);
    assert!(!plan.contains(&Action::MakeBundle));
    assert!(!plan.contains(&Action::CopyBundle));
    assert_eq!(plan.last(), Some(&Action::RemoveManifest));
}

#[test]
fn online_cleanup_removes_leftover_bundle() {
    let s = Staging { bundle: true, ..complete(false) };
    let plan = plan_build(false, s, true);
    assert!(plan.contains(&Action::RemoveBundle));
    assert!(!run(s, &plan).bundle);
}

#[test]
fn second_build_starts_no_tool() {
    for offline in [false, true] {
        let first = plan_build(offline, empty(), false);
        let after = run(empty(), &first);
        assert_eq!(after, Staging { manifest: true, archive: true, ..complete(offline) });
        let second = plan_build(offline, after, false);
        assert_eq!(second, vec![Action::WriteManifest, Action::PackArchive, Action::CommitArchive]);
        assert!(second.iter().all(|a| !a.is_tool()));
    }
}

#[test]
fn second_build_writes_same_manifest() {
    let req = BuildRequest {
        name: "demo".to_string(),
        image: "img".to_string(),
        offline: true,
        kernel_cmdline: None,
    };
    let a = Manifest::from_request(&req).to_json().unwrap();
    let b = Manifest::from_request(&req).to_json().unwrap();
    assert_eq!(a, b);
}

#[test]
fn staged_kernel_is_not_rebuilt() {
    let s = Staging { kernel: true, ..empty() };
    let plan = plan_build(true, s, true);
    assert!(!plan.contains(&Action::BuildKernel));
    assert!(plan.contains(&Action::CompileKaps));
    assert!(run(s, &plan).kernel);
}

#[test]
fn cleanup_keeps_runtime_and_kernel() {
    let plan = plan_build(true, empty(), true);
    let after = run(empty(), &plan);
    assert!(after.kaps && after.kernel && after.archive);
    assert!(!after.rootfs && !after.bundle && !after.initramfs && !after.manifest);
}

#[test]
fn interrupted_initramfs_is_absent() {
    let plan = plan_build(false, empty(), false);
    let commit = plan.iter().position(|a| *a == Action::CommitInitramfs).unwrap();
    assert_eq!(plan[commit - 1], Action::PackInitramfs);
    for k in 0..commit {
        assert!(!run(empty(), &plan[..k]).initramfs);
    }
    assert!(run(empty(), &plan[..commit + 1]).initramfs);
}

#[test]
fn staged_initramfs_skips_rootfs_step() {
    let s = Staging { initramfs: true, ..empty() };
    let plan = plan_build(true, s, false);
    assert!(!plan.contains(&Action::ExtractRootfs));
    assert!(!plan.contains(&Action::PackInitramfs));
    assert!(plan.contains(&Action::MakeBundle));
}

#[test]
fn tool_actions() {
    assert!(Action::BuildKernel.is_tool());
    assert!(Action::PackInitramfs.is_tool());
    assert!(!Action::WriteManifest.is_tool());
    assert!(!Action::CommitInitramfs.is_tool());
    assert_eq!(Action::RemoveManifest.step(), Step::Cleanup);
    assert!(!Step::Cleanup.aborts_build());
    assert!(Step::Kernel.aborts_build());
    assert!(Step::Archive.aborts_build());
}

#[test]
fn archive_name_adds_extension_once() {
    assert_eq!(archive_name("demo"), "demo.qrk");
    assert_eq!(archive_name("demo.qrk"), "demo.qrk");
    assert_eq!(archive_name(""), ".qrk");
}

#[test]
fn init_script_text() {
    assert_eq!(
        init_script("/opt/kaps", "bundle"),
        "mount -t devtmpfs dev /dev\nmount -t proc proc /proc\nmount -t sysfs sys /sys\nip link set lo up\necho running kaps\n/opt/kaps run --bundle bundle\n"
    );
}

#[test]
fn archive_members_in_order() {
    let l = StagingLayout::new("demo");
    let m = l.archive_members(true);
    let names: Vec<&str> = m.iter().map(|x| x.name.as_str()).collect();
    assert_eq!(names, vec!["quark.json", "vmlinux.bin", "initramfs.img", "bundle"]);
    assert_eq!(m[0].source, "/tmp/quark/builds/demo/quark.json");
    assert!(m[3].is_dir);
    assert_eq!(l.archive_members(false).len(), 3);
}

#[test]
fn end_to_end_demo() {
    let req = BuildRequest {
        name: "demo".to_string(),
        image: "https://example/img.tar.gz".to_string(),
        offline: true,
        kernel_cmdline: None,
    };
    let plan = plan_build(req.offline, empty(), false);
    for step in [Step::Kaps, Step::Kernel, Step::Bundle, Step::Initramfs, Step::Manifest] {
        assert!(plan.iter().any(|a| a.step() == step));
    }
    let after = run(empty(), &plan);
    assert!(after.archive);
    let layout = StagingLayout::new(&req.name);
    assert_eq!(layout.archive, "demo.qrk");
    let names: Vec<String> = layout.archive_members(req.offline).into_iter().map(|m| m.name).collect();
    assert!(names.contains(&"quark.json".to_string()));
    assert!(names.contains(&"vmlinux.bin".to_string()));
    assert!(names.contains(&"initramfs.img".to_string()));
    let json = Manifest::from_request(&req).to_json().unwrap();
    assert!(json.contains("\"offline\":true"));
    assert!(json.contains("\"bundle\":\"bundle\""));
}

#[test]
fn retry_after_interruption_skips_finished_steps() {
    let plan = plan_build(true, empty(), false);
    for k in 0..=plan.len() {
        let t = run(empty(), &plan[..k]);
        let retry = plan_build(true, t, false);
        assert_eq!(retry.contains(&Action::BuildKernel), !t.kernel);
        assert_eq!(retry.contains(&Action::CompileKaps), !t.kaps);
        assert_eq!(retry.contains(&Action::MakeBundle), !t.bundle);
        assert_eq!(retry.contains(&Action::PackInitramfs), !t.initramfs);
    }
}
