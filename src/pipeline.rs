//! The build pipeline as decisions: which actions a build still has to run,
//! given which staging products already exist, and what each action does to
//! the staging directory.
use vstd::prelude::*;
use crate::manifest::{manifest_json, manifest_of, BuildRequest, Manifest};

verus! {

/// One construction step of a build, in pipeline order.
#[derive(Debug, Clone, Copy, PartialEq, Eq, Structural)]
pub enum Step {
    Kaps,
    Kernel,
    Bundle,
    Initramfs,
    Manifest,
    Archive,
    Cleanup,
}

/// One operation the caller performs on behalf of the pipeline.
#[derive(Debug, Clone, Copy, PartialEq, Eq, Structural)]
pub enum Action {
    /// Clone the runtime's repository.
    CloneKaps,
    /// Check out the pinned reference of the runtime.
    CheckoutKaps,
    /// Compile the runtime in release mode into its staging path.
    CompileKaps,
    /// Run the kernel build, producing the kernel at its staging path.
    BuildKernel,
    /// Turn the container image into a bundle directory.
    MakeBundle,
    /// Materialise the base root filesystem tree.
    ExtractRootfs,
    /// Install the runtime binary into the root filesystem tree.
    InstallKaps,
    /// Copy the bundle directory into the root filesystem tree.
    CopyBundle,
    /// Write the init script into the root filesystem tree.
    WriteInit,
    /// Pack the tree into the initramfs, under its scratch name.
    PackInitramfs,
    /// Rename the packed initramfs to its final name.
    CommitInitramfs,
    /// Write the manifest file.
    WriteManifest,
    /// Write the archive, under its scratch name.
    PackArchive,
    /// Rename the written archive to its final name.
    CommitArchive,
    /// Remove the root filesystem tree.
    RemoveRootfs,
    /// Remove the bundle directory.
    RemoveBundle,
    /// Remove the loose initramfs.
    RemoveInitramfs,
    /// Remove the loose manifest.
    RemoveManifest,
}

/// Which products are present, each complete, in the staging directory
/// (and, for the archive, at its destination).
#[derive(Debug, Clone, Copy, PartialEq, Eq, Structural)]
pub struct Staging {
    pub kaps: bool,
    pub kernel: bool,
    pub bundle: bool,
    pub rootfs: bool,
    pub initramfs_part: bool,
    pub initramfs: bool,
    pub manifest: bool,
    pub archive_part: bool,
    pub archive: bool,
}

/// The actions that start an external tool.
pub open spec fn is_tool(a: Action) -> bool {
    match a {
        Action::CloneKaps | Action::CheckoutKaps | Action::CompileKaps | Action::BuildKernel
        | Action::MakeBundle | Action::ExtractRootfs | Action::CopyBundle | Action::PackInitramfs
        | Action::RemoveRootfs | Action::RemoveBundle => true,
        _ => false,
    }
}

/// The step an action belongs to.
pub open spec fn step_of(a: Action) -> Step {
    match a {
        Action::CloneKaps | Action::CheckoutKaps | Action::CompileKaps => Step::Kaps,
        Action::BuildKernel => Step::Kernel,
        Action::MakeBundle => Step::Bundle,
        Action::ExtractRootfs | Action::InstallKaps | Action::CopyBundle | Action::WriteInit
        | Action::PackInitramfs | Action::CommitInitramfs => Step::Initramfs,
        Action::WriteManifest => Step::Manifest,
        Action::PackArchive | Action::CommitArchive => Step::Archive,
        _ => Step::Cleanup,
    }
}

/// What a completed action leaves in the staging directory. A rename
/// publishes its product only when the scratch file it renames is there.
pub open spec fn apply(s: Staging, a: Action) -> Staging {
    match a {
        Action::CompileKaps => Staging { kaps: true, ..s },
        Action::BuildKernel => Staging { kernel: true, ..s },
        Action::MakeBundle => Staging { bundle: true, ..s },
        Action::ExtractRootfs => Staging { rootfs: true, ..s },
        Action::PackInitramfs => Staging { initramfs_part: true, ..s },
        Action::CommitInitramfs => if s.initramfs_part {
            Staging { initramfs: true, initramfs_part: false, ..s }
        } else {
            s
        },
        Action::WriteManifest => Staging { manifest: true, ..s },
        Action::PackArchive => Staging { archive_part: true, ..s },
        Action::CommitArchive => if s.archive_part {
            Staging { archive: true, archive_part: false, ..s }
        } else {
            s
        },
        Action::RemoveRootfs => Staging { rootfs: false, ..s },
        Action::RemoveBundle => Staging { bundle: false, ..s },
        Action::RemoveInitramfs => Staging { initramfs: false, ..s },
        Action::RemoveManifest => Staging { manifest: false, ..s },
        _ => s,
    }
}

/// The staging directory after the first `k` actions of `p` completed:
/// also what a build interrupted at that point leaves.
pub open spec fn run_prefix(s: Staging, p: Seq<Action>, k: nat) -> Staging
    decreases k,
{
    if k == 0 {
        s
    } else {
        apply(run_prefix(s, p, (k - 1) as nat), p[k - 1])
    }
}

/// The staging directory after all of `p` completed.
pub open spec fn run(s: Staging, p: Seq<Action>) -> Staging {
    run_prefix(s, p, p.len())
}

pub open spec fn kaps_step(s: Staging) -> Seq<Action> {
    if s.kaps {
        seq![]
    } else {
        seq![Action::CloneKaps, Action::CheckoutKaps, Action::CompileKaps]
    }
}

pub open spec fn kernel_step(s: Staging) -> Seq<Action> {
    if s.kernel {
        seq![]
    } else {
        seq![Action::BuildKernel]
    }
}

pub open spec fn bundle_step(offline: bool, s: Staging) -> Seq<Action> {
    if offline && !s.bundle {
        seq![Action::MakeBundle]
    } else {
        seq![]
    }
}

pub open spec fn initramfs_step(offline: bool, s: Staging) -> Seq<Action> {
    if s.initramfs {
        seq![]
    } else {
        seq![Action::ExtractRootfs, Action::InstallKaps] + (if offline {
            seq![Action::CopyBundle]
        } else {
            seq![]
        }) + seq![Action::WriteInit, Action::PackInitramfs, Action::CommitInitramfs]
    }
}

pub open spec fn manifest_step() -> Seq<Action> {
    seq![Action::WriteManifest]
}

pub open spec fn archive_step() -> Seq<Action> {
    seq![Action::PackArchive, Action::CommitArchive]
}

pub open spec fn cleanup_step(cleanup: bool) -> Seq<Action> {
    if cleanup {
        seq![
            Action::RemoveRootfs,
            Action::RemoveBundle,
            Action::RemoveInitramfs,
            Action::RemoveManifest,
        ]
    } else {
        seq![]
    }
}

/// Every action of a build, in order. Each step is skipped when the product
/// it makes is already staged; the manifest and the archive are always
/// written; cleanup, when asked for, comes last.
pub open spec fn build_plan(offline: bool, s: Staging, cleanup: bool) -> Seq<Action> {
    kaps_step(s) + kernel_step(s) + bundle_step(offline, s) + initramfs_step(offline, s)
        + manifest_step() + archive_step() + cleanup_step(cleanup)
}

/// Every product a build needs before its manifest and archive is staged.
pub open spec fn complete(s: Staging, offline: bool) -> bool {
    s.kaps && s.kernel && (offline ==> s.bundle) && s.initramfs
}

impl Action {
    /// Whether the action starts an external tool.
    pub fn is_tool(&self) -> (r: bool)
        ensures
            r == is_tool(*self),
    {
        match self {
            Action::CloneKaps | Action::CheckoutKaps | Action::CompileKaps | Action::BuildKernel
            | Action::MakeBundle | Action::ExtractRootfs | Action::CopyBundle
            | Action::PackInitramfs | Action::RemoveRootfs | Action::RemoveBundle => true,
            _ => false,
        }
    }

    /// The step the action belongs to, to say where a failure happened.
    pub fn step(&self) -> (r: Step)
        ensures
            r == step_of(*self),
    {
        match self {
            Action::CloneKaps | Action::CheckoutKaps | Action::CompileKaps => Step::Kaps,
            Action::BuildKernel => Step::Kernel,
            Action::MakeBundle => Step::Bundle,
            Action::ExtractRootfs | Action::InstallKaps | Action::CopyBundle | Action::WriteInit
            | Action::PackInitramfs | Action::CommitInitramfs => Step::Initramfs,
            Action::WriteManifest => Step::Manifest,
            Action::PackArchive | Action::CommitArchive => Step::Archive,
            _ => Step::Cleanup,
        }
    }
}

impl Step {
    /// Whether a failure in this step ends the build. Only cleanup failures
    /// do not: they come after the archive is written, which stands.
    pub fn aborts_build(&self) -> (r: bool)
        ensures
            r == (*self != Step::Cleanup),
    {
        match self {
            Step::Cleanup => false,
            _ => true,
        }
    }
}

fn push_kaps_step(plan: &mut Vec<Action>, s: Staging)
    ensures
        final(plan)@ == old(plan)@ + kaps_step(s),
{
    if !s.kaps {
        plan.push(Action::CloneKaps);
        plan.push(Action::CheckoutKaps);
        plan.push(Action::CompileKaps);
    }
    assert(plan@ =~= old(plan)@ + kaps_step(s));
}

fn push_kernel_step(plan: &mut Vec<Action>, s: Staging)
    ensures
        final(plan)@ == old(plan)@ + kernel_step(s),
{
    if !s.kernel {
        plan.push(Action::BuildKernel);
    }
    assert(plan@ =~= old(plan)@ + kernel_step(s));
}

fn push_bundle_step(plan: &mut Vec<Action>, offline: bool, s: Staging)
    ensures
        final(plan)@ == old(plan)@ + bundle_step(offline, s),
{
    if offline && !s.bundle {
        plan.push(Action::MakeBundle);
    }
    assert(plan@ =~= old(plan)@ + bundle_step(offline, s));
}

fn push_initramfs_step(plan: &mut Vec<Action>, offline: bool, s: Staging)
    ensures
        final(plan)@ == old(plan)@ + initramfs_step(offline, s),
{
    if !s.initramfs {
        plan.push(Action::ExtractRootfs);
        plan.push(Action::InstallKaps);
        if offline {
            plan.push(Action::CopyBundle);
        }
        plan.push(Action::WriteInit);
        plan.push(Action::PackInitramfs);
        plan.push(Action::CommitInitramfs);
    }
    assert(plan@ =~= old(plan)@ + initramfs_step(offline, s));
}

fn push_cleanup_step(plan: &mut Vec<Action>, cleanup: bool)
    ensures
        final(plan)@ == old(plan)@ + cleanup_step(cleanup),
{
    if cleanup {
        plan.push(Action::RemoveRootfs);
        plan.push(Action::RemoveBundle);
        plan.push(Action::RemoveInitramfs);
        plan.push(Action::RemoveManifest);
    }
    assert(plan@ =~= old(plan)@ + cleanup_step(cleanup));
}

/// The actions a build of the given mode still has to run when the staging
/// directory holds `s`, in pipeline order; with `cleanup`, the scratch
/// products are removed once the archive is written.
pub fn plan_build(offline: bool, s: Staging, cleanup: bool) -> (r: Vec<Action>)
    ensures
        r@ == build_plan(offline, s, cleanup),
{
    let mut plan: Vec<Action> = Vec::new();
    push_kaps_step(&mut plan, s);
    push_kernel_step(&mut plan, s);
    push_bundle_step(&mut plan, offline, s);
    push_initramfs_step(&mut plan, offline, s);
    plan.push(Action::WriteManifest);
    plan.push(Action::PackArchive);
    plan.push(Action::CommitArchive);
    push_cleanup_step(&mut plan, cleanup);
    assert(plan@ =~= build_plan(offline, s, cleanup));
    plan
}

/// What a whole build leaves: runtime and kernel staged, the archive
/// published; the scratch products staged too, unless cleanup removed them.
pub open spec fn after_build(offline: bool, s: Staging, cleanup: bool) -> Staging {
    let built = Staging {
        kaps: true,
        kernel: true,
        bundle: s.bundle || offline,
        rootfs: s.rootfs || !s.initramfs,
        initramfs_part: s.initramfs_part && s.initramfs,
        initramfs: true,
        manifest: true,
        archive_part: false,
        archive: true,
    };
    if cleanup {
        Staging {
            rootfs: false,
            bundle: false,
            initramfs: false,
            manifest: false,
            ..built
        }
    } else {
        built
    }
}

proof fn lemma_run_prefix_append(s: Staging, p: Seq<Action>, q: Seq<Action>, k: nat)
    requires
        k <= p.len() + q.len(),
    ensures
        k <= p.len() ==> run_prefix(s, p + q, k) == run_prefix(s, p, k),
        k >= p.len() ==> run_prefix(s, p + q, k) == run_prefix(run(s, p), q, (k - p.len()) as nat),
    decreases k,
{
    if k > 0 {
        lemma_run_prefix_append(s, p, q, (k - 1) as nat);
    }
}

proof fn lemma_run_append(s: Staging, p: Seq<Action>, q: Seq<Action>)
    ensures
        run(s, p + q) == run(run(s, p), q),
{
    lemma_run_prefix_append(s, p, q, p.len() + q.len());
}

pub open spec fn kaps_effect(s: Staging, t: Staging) -> Staging {
    if s.kaps { t } else { Staging { kaps: true, ..t } }
}

pub open spec fn kernel_effect(s: Staging, t: Staging) -> Staging {
    if s.kernel { t } else { Staging { kernel: true, ..t } }
}

pub open spec fn bundle_effect(offline: bool, s: Staging, t: Staging) -> Staging {
    if offline && !s.bundle { Staging { bundle: true, ..t } } else { t }
}

pub open spec fn initramfs_effect(s: Staging, t: Staging) -> Staging {
    if s.initramfs {
        t
    } else {
        Staging { rootfs: true, initramfs_part: false, initramfs: true, ..t }
    }
}

pub open spec fn archive_effect(t: Staging) -> Staging {
    Staging { manifest: true, archive_part: false, archive: true, ..t }
}

pub open spec fn cleanup_effect(cleanup: bool, t: Staging) -> Staging {
    if cleanup {
        Staging { rootfs: false, bundle: false, initramfs: false, manifest: false, ..t }
    } else {
        t
    }
}

proof fn lemma_run_kaps(s: Staging, t: Staging)
    ensures
        run(t, kaps_step(s)) == kaps_effect(s, t),
{
    reveal_with_fuel(run_prefix, 4);
}

proof fn lemma_run_kernel(s: Staging, t: Staging)
    ensures
        run(t, kernel_step(s)) == kernel_effect(s, t),
{
    reveal_with_fuel(run_prefix, 2);
}

proof fn lemma_run_bundle(offline: bool, s: Staging, t: Staging)
    ensures
        run(t, bundle_step(offline, s)) == bundle_effect(offline, s, t),
{
    reveal_with_fuel(run_prefix, 2);
}

proof fn lemma_run_initramfs(offline: bool, s: Staging, t: Staging)
    ensures
        run(t, initramfs_step(offline, s)) == initramfs_effect(s, t),
{
    if !s.initramfs {
        reveal_with_fuel(run_prefix, 7);
        if offline {
            let p = seq![
                Action::ExtractRootfs,
                Action::InstallKaps,
                Action::CopyBundle,
                Action::WriteInit,
                Action::PackInitramfs,
                Action::CommitInitramfs,
            ];
            assert(initramfs_step(offline, s) =~= p);
            assert(run(t, p) == run_prefix(t, p, 6));
        } else {
            let p = seq![
                Action::ExtractRootfs,
                Action::InstallKaps,
                Action::WriteInit,
                Action::PackInitramfs,
                Action::CommitInitramfs,
            ];
            assert(initramfs_step(offline, s) =~= p);
            assert(run(t, p) == run_prefix(t, p, 5));
        }
    }
}

proof fn lemma_run_archive(t: Staging)
    ensures
        run(t, manifest_step() + archive_step()) == archive_effect(t),
{
    reveal_with_fuel(run_prefix, 4);
    let p = seq![Action::WriteManifest, Action::PackArchive, Action::CommitArchive];
    assert(manifest_step() + archive_step() =~= p);
    assert(run(t, p) == run_prefix(t, p, 3));
}

proof fn lemma_run_cleanup(cleanup: bool, t: Staging)
    ensures
        run(t, cleanup_step(cleanup)) == cleanup_effect(cleanup, t),
{
    reveal_with_fuel(run_prefix, 5);
    if cleanup {
        let p = cleanup_step(cleanup);
        assert(run(t, p) == run_prefix(t, p, 4));
    }
}

/// The net effect of a build: running every planned action from `s` leaves
/// exactly `after_build`. In particular the runtime binary and the kernel
/// stay staged, with or without cleanup.
pub proof fn lemma_build_effect(offline: bool, s: Staging, cleanup: bool)
    ensures
        run(s, build_plan(offline, s, cleanup)) == after_build(offline, s, cleanup),
{
    let a = kaps_step(s);
    let b = kernel_step(s);
    let c = bundle_step(offline, s);
    let d = initramfs_step(offline, s);
    let e = manifest_step();
    let f = archive_step();
    let g = cleanup_step(cleanup);
    lemma_run_append(s, a, b);
    lemma_run_append(s, a + b, c);
    lemma_run_append(s, a + b + c, d);
    lemma_run_append(s, a + b + c + d, e + f);
    lemma_run_append(s, a + b + c + d + (e + f), g);
    assert(build_plan(offline, s, cleanup) =~= a + b + c + d + (e + f) + g);
    let s1 = run(s, a);
    let s2 = run(s1, b);
    let s3 = run(s2, c);
    let s4 = run(s3, d);
    let s6 = run(s4, e + f);
    lemma_run_kaps(s, s);
    lemma_run_kernel(s, s1);
    lemma_run_bundle(offline, s, s2);
    lemma_run_initramfs(offline, s, s3);
    lemma_run_archive(s4);
    lemma_run_cleanup(cleanup, s6);
}

/// No action of `p` starts an external tool.
pub open spec fn no_tool(p: Seq<Action>) -> bool {
    forall|i: int| 0 <= i < p.len() ==> !is_tool(#[trigger] p[i])
}

/// No action of `p` is `a`.
pub open spec fn lacks(p: Seq<Action>, a: Action) -> bool {
    forall|i: int| 0 <= i < p.len() ==> #[trigger] p[i] != a
}

/// What a build on a complete staging directory runs.
pub open spec fn quiet_plan() -> Seq<Action> {
    seq![Action::WriteManifest, Action::PackArchive, Action::CommitArchive]
}

/// Re-running a build is quiet. A build without cleanup leaves the staging
/// directory complete; a build on a complete staging directory starts no
/// external tool and only writes the manifest and the archive; and two
/// builds of the same request write the same manifest text.
pub proof fn lemma_rebuild_is_quiet(req: &BuildRequest, s: Staging, m1: &Manifest, m2: &Manifest)
    requires
        manifest_of(req, m1),
        manifest_of(req, m2),
    ensures
        complete(run(s, build_plan(req.offline, s, false)), req.offline),
        complete(s, req.offline) ==> build_plan(req.offline, s, false) == quiet_plan(),
        no_tool(quiet_plan()),
        manifest_json(m1) == manifest_json(m2),
{
    lemma_build_effect(req.offline, s, false);
    if complete(s, req.offline) {
        assert(build_plan(req.offline, s, false) =~= quiet_plan());
    }
    assert(m1.bundle is Some <==> m2.bundle is Some);
}

proof fn lemma_kernel_stays(s: Staging, p: Seq<Action>, k: nat)
    requires
        s.kernel,
        k <= p.len(),
    ensures
        run_prefix(s, p, k).kernel,
    decreases k,
{
    if k > 0 {
        lemma_kernel_stays(s, p, (k - 1) as nat);
    }
}

/// Skip policy for the kernel: when the kernel is staged before a build,
/// its step is empty, no action of the build rebuilds it, and it stays
/// staged at every point of the build.
pub proof fn lemma_kernel_skipped(offline: bool, s: Staging, cleanup: bool, k: nat)
    requires
        s.kernel,
        k <= build_plan(offline, s, cleanup).len(),
    ensures
        kernel_step(s) == Seq::<Action>::empty(),
        lacks(build_plan(offline, s, cleanup), Action::BuildKernel),
        run_prefix(s, build_plan(offline, s, cleanup), k).kernel,
{
    let p = build_plan(offline, s, cleanup);
    assert(kernel_step(s) =~= Seq::<Action>::empty());
    assert forall|i: int| 0 <= i < p.len() implies #[trigger] p[i] != Action::BuildKernel by {
        let a = kaps_step(s);
        let c = bundle_step(offline, s);
        let d = initramfs_step(offline, s);
        let g = cleanup_step(cleanup);
        assert(p =~= a + c + d + (manifest_step() + archive_step()) + g);
    }
    lemma_kernel_stays(s, p, k);
}

/// The initramfs is published atomically: from a staging directory without
/// it, any run of actions cut short before a rename of the initramfs leaves
/// it absent. In a build, that rename directly follows the packing.
pub proof fn lemma_initramfs_atomic(s: Staging, p: Seq<Action>, k: nat)
    requires
        !s.initramfs,
        k <= p.len(),
        forall|j: int| 0 <= j < k ==> #[trigger] p[j] != Action::CommitInitramfs,
    ensures
        !run_prefix(s, p, k).initramfs,
    decreases k,
{
    if k > 0 {
        lemma_initramfs_atomic(s, p, (k - 1) as nat);
    }
}

/// In the initramfs step the rename to the final name is the last action,
/// right after the packing into the scratch name.
pub proof fn lemma_initramfs_renamed_last(offline: bool, s: Staging)
    requires
        !s.initramfs,
    ensures
        ({
            let p = initramfs_step(offline, s);
            p.len() >= 2 && p[p.len() - 1] == Action::CommitInitramfs && p[p.len() - 2]
                == Action::PackInitramfs
        }),
{
}

/// The action removes a staged product.
pub open spec fn is_removal(a: Action) -> bool {
    match a {
        Action::RemoveRootfs | Action::RemoveBundle | Action::RemoveInitramfs
        | Action::RemoveManifest => true,
        _ => false,
    }
}

/// Every product staged in `s` is still staged in `t`.
pub open spec fn keeps_products(s: Staging, t: Staging) -> bool {
    &&& s.kaps ==> t.kaps
    &&& s.kernel ==> t.kernel
    &&& s.bundle ==> t.bundle
    &&& s.initramfs ==> t.initramfs
}

proof fn lemma_no_removal_keeps(s: Staging, p: Seq<Action>, k: nat)
    requires
        k <= p.len(),
        forall|i: int| 0 <= i < p.len() ==> !is_removal(#[trigger] p[i]),
    ensures
        keeps_products(s, run_prefix(s, p, k)),
    decreases k,
{
    if k > 0 {
        lemma_no_removal_keeps(s, p, (k - 1) as nat);
    }
}

/// A build without cleanup that stops after any number of its actions
/// (a failure or an interruption) loses no staged product, so a retry
/// skips every step whose product was already there or got finished.
pub proof fn lemma_interrupted_build_keeps_products(offline: bool, s: Staging, k: nat)
    requires
        k <= build_plan(offline, s, false).len(),
    ensures
        keeps_products(s, run_prefix(s, build_plan(offline, s, false), k)),
        ({
            let t = run_prefix(s, build_plan(offline, s, false), k);
            &&& t.kaps ==> kaps_step(t) == Seq::<Action>::empty()
            &&& t.kernel ==> kernel_step(t) == Seq::<Action>::empty()
            &&& t.bundle ==> bundle_step(offline, t) == Seq::<Action>::empty()
            &&& t.initramfs ==> initramfs_step(offline, t) == Seq::<Action>::empty()
        }),
{
    let p = build_plan(offline, s, false);
    assert forall|i: int| 0 <= i < p.len() implies !is_removal(#[trigger] p[i]) by {
        let a = kaps_step(s);
        let b = kernel_step(s);
        let c = bundle_step(offline, s);
        let d = initramfs_step(offline, s);
        assert(p =~= a + b + c + d + (manifest_step() + archive_step()));
    }
    lemma_no_removal_keeps(s, p, k);
}

} // verus!
