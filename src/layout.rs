//! Where a build keeps its products: every path is derived from the
//! artifact name alone.
use vstd::prelude::*;
use crate::strings::{ends_with, join2, join3};

verus! {

/// Root of all staging directories.
pub const BUILD_DIR: &'static str = "/tmp/quark/builds/";

/// Member name of the kernel inside an archive.
pub const KERNEL_FILE: &'static str = "vmlinux.bin";

/// Member name of the initramfs inside an archive.
pub const INITRAMFS_FILE: &'static str = "initramfs.img";

/// Member name of the manifest inside an archive.
pub const MANIFEST_FILE: &'static str = "quark.json";

/// Member name of the bundle directory inside an archive.
pub const BUNDLE_DIR: &'static str = "bundle";

/// Name of the root filesystem tree inside the staging directory.
pub const ROOTFS_DIR: &'static str = "rootfs";

/// Name of the runtime binary.
pub const KAPS_NAME: &'static str = "kaps";

/// Scratch name the initramfs is written under before it is renamed.
pub const INITRAMFS_PART_FILE: &'static str = "initramfs.img.part";

/// Where the runtime binary is installed inside the guest.
pub const KAPS_INSTALL_PATH: &'static str = "/opt/kaps";

/// Where the bundle is placed inside the guest.
pub const BUNDLE_MOUNT_PATH: &'static str = "/bundle";

/// Path of the init script inside the guest.
pub const INIT_PATH: &'static str = "/init";

/// Repository of the runtime.
pub const KAPS_REPOSITORY: &'static str = "https://github.com/virt-do/kaps";

/// Reference of the runtime that is checked out before it is compiled.
pub const KAPS_REFERENCE: &'static str = "main";

/// Name of the runtime's source checkout inside the staging directory.
pub const KAPS_SOURCE_DIR: &'static str = "kaps-src";

/// Extension of a quardle archive.
pub const ARCHIVE_EXT: &'static str = ".qrk";

/// Scratch extension an archive is written under before it is renamed.
pub const PART_EXT: &'static str = ".part";

/// Kernel command line used when the request gives none.
pub const DEFAULT_KERNEL_CMDLINE: &'static str = "/proc/cmdline";

pub open spec fn work_dir_of(name: Seq<char>) -> Seq<char> {
    BUILD_DIR@ + name + "/"@
}

pub open spec fn archive_name_of(name: Seq<char>) -> Seq<char> {
    if ARCHIVE_EXT@.len() <= name.len() && name.subrange(
        name.len() - ARCHIVE_EXT@.len(),
        name.len() as int,
    ) == ARCHIVE_EXT@ {
        name
    } else {
        name + ARCHIVE_EXT@
    }
}

/// The staging directory of the artifact `name`: `/tmp/quark/builds/<name>/`.
pub fn work_dir(name: &str) -> (r: String)
    ensures
        r@ == work_dir_of(name@),
{
    join3(BUILD_DIR, name, "/")
}

/// The file name of the archive for `name`: `<name>.qrk`, without doubling
/// an extension that `name` already carries.
pub fn archive_name(name: &str) -> (r: String)
    ensures
        r@ == archive_name_of(name@),
{
    if ends_with(name, ARCHIVE_EXT) {
        String::from_str(name)
    } else {
        join2(name, ARCHIVE_EXT)
    }
}

/// The path of `file` inside the staging directory of `name`.
pub open spec fn staged(name: Seq<char>, file: Seq<char>) -> Seq<char> {
    work_dir_of(name) + file
}

/// The well-known paths of one build, all derived from the artifact name.
pub struct StagingLayout {
    pub work_dir: String,
    pub kaps: String,
    pub kernel: String,
    pub rootfs: String,
    pub rootfs_kaps: String,
    pub rootfs_bundle: String,
    pub rootfs_init: String,
    pub kaps_source: String,
    pub bundle: String,
    pub initramfs: String,
    pub initramfs_part: String,
    pub manifest: String,
    pub manifest_part: String,
    pub archive: String,
    pub archive_part: String,
}

/// `l` holds the staging paths of the artifact `name`.
pub open spec fn is_layout_of(l: &StagingLayout, name: Seq<char>) -> bool {
    &&& l.work_dir@ == work_dir_of(name)
    &&& l.kaps@ == staged(name, KAPS_NAME@)
    &&& l.kernel@ == staged(name, KERNEL_FILE@)
    &&& l.rootfs@ == staged(name, ROOTFS_DIR@)
    &&& l.rootfs_kaps@ == staged(name, ROOTFS_DIR@) + KAPS_INSTALL_PATH@
    &&& l.rootfs_bundle@ == staged(name, ROOTFS_DIR@) + BUNDLE_MOUNT_PATH@
    &&& l.rootfs_init@ == staged(name, ROOTFS_DIR@) + INIT_PATH@
    &&& l.kaps_source@ == staged(name, KAPS_SOURCE_DIR@)
    &&& l.bundle@ == staged(name, BUNDLE_DIR@)
    &&& l.initramfs@ == staged(name, INITRAMFS_FILE@)
    &&& l.initramfs_part@ == staged(name, INITRAMFS_PART_FILE@)
    &&& l.manifest@ == staged(name, MANIFEST_FILE@)
    &&& l.manifest_part@ == staged(name, MANIFEST_FILE@) + PART_EXT@
    &&& l.archive@ == archive_name_of(name)
    &&& l.archive_part@ == archive_name_of(name) + PART_EXT@
}

impl StagingLayout {
    /// The layout of the artifact `name`.
    pub fn new(name: &str) -> (r: StagingLayout)
        ensures
            is_layout_of(&r, name@),
    {
        let dir = work_dir(name);
        let archive = archive_name(name);
        let archive_part = join2(archive.as_str(), PART_EXT);
        let rootfs = join2(dir.as_str(), ROOTFS_DIR);
        StagingLayout {
            kaps: join2(dir.as_str(), KAPS_NAME),
            kernel: join2(dir.as_str(), KERNEL_FILE),
            rootfs_kaps: join2(rootfs.as_str(), KAPS_INSTALL_PATH),
            rootfs_bundle: join2(rootfs.as_str(), BUNDLE_MOUNT_PATH),
            rootfs_init: join2(rootfs.as_str(), INIT_PATH),
            kaps_source: join2(dir.as_str(), KAPS_SOURCE_DIR),
            rootfs,
            bundle: join2(dir.as_str(), BUNDLE_DIR),
            initramfs: join2(dir.as_str(), INITRAMFS_FILE),
            initramfs_part: join2(dir.as_str(), INITRAMFS_PART_FILE),
            manifest: join2(dir.as_str(), MANIFEST_FILE),
            manifest_part: join3(dir.as_str(), MANIFEST_FILE, PART_EXT),
            work_dir: dir,
            archive,
            archive_part,
        }
    }
}

/// One entry of an archive: the staged path it is read from, the name it is
/// stored under, and whether it is a directory tree.
pub struct Member {
    pub source: String,
    pub name: String,
    pub is_dir: bool,
}

/// The archive entries of a build, in their fixed order: manifest, kernel,
/// initramfs, and the bundle tree in offline mode.
pub open spec fn members_of(l: &StagingLayout, offline: bool, r: Seq<Member>) -> bool {
    &&& r.len() == if offline { 4int } else { 3int }
    &&& r[0].source@ == l.manifest@ && r[0].name@ == MANIFEST_FILE@ && !r[0].is_dir
    &&& r[1].source@ == l.kernel@ && r[1].name@ == KERNEL_FILE@ && !r[1].is_dir
    &&& r[2].source@ == l.initramfs@ && r[2].name@ == INITRAMFS_FILE@ && !r[2].is_dir
    &&& offline ==> r[3].source@ == l.bundle@ && r[3].name@ == BUNDLE_DIR@ && r[3].is_dir
}

/// The text of the init script: mount the pseudo-filesystems, bring up the
/// loopback interface, then hand over to the runtime in run mode.
pub open spec fn init_script_of(kaps: Seq<char>, bundle: Seq<char>) -> Seq<char> {
    "mount -t devtmpfs dev /dev\nmount -t proc proc /proc\nmount -t sysfs sys /sys\nip link set lo up\necho running kaps\n"@
        + kaps + " run --bundle "@ + bundle + "\n"@
}

/// The init script that starts the runtime at `kaps` on the bundle `bundle`.
pub fn init_script(kaps: &str, bundle: &str) -> (r: String)
    ensures
        r@ == init_script_of(kaps@, bundle@),
{
    let mut s = String::from_str(
        "mount -t devtmpfs dev /dev\nmount -t proc proc /proc\nmount -t sysfs sys /sys\nip link set lo up\necho running kaps\n",
    );
    s.append(kaps);
    s.append(" run --bundle ");
    s.append(bundle);
    s.append("\n");
    s
}

impl StagingLayout {
    /// The entries of the archive, in the order they are written.
    pub fn archive_members(&self, offline: bool) -> (r: Vec<Member>)
        ensures
            members_of(self, offline, r@),
    {
        let mut r: Vec<Member> = Vec::new();
        r.push(Member { source: self.manifest.clone(), name: String::from_str(MANIFEST_FILE), is_dir: false });
        r.push(Member { source: self.kernel.clone(), name: String::from_str(KERNEL_FILE), is_dir: false });
        r.push(Member { source: self.initramfs.clone(), name: String::from_str(INITRAMFS_FILE), is_dir: false });
        if offline {
            r.push(Member { source: self.bundle.clone(), name: String::from_str(BUNDLE_DIR), is_dir: true });
        }
        r
    }
}

} // verus!
