//! The order of the tool's outside work, as state machines: the caller
//! performs each action, reports whether it succeeded, and asks for the next.
use vstd::prelude::*;

verus! {

/// Whether an action succeeded.
#[derive(Clone, Copy, Debug, PartialEq, Eq, Structural)]
pub enum Outcome {
    Succeeded,
    Failed,
}

/// Where the packaging of one executable stands.
#[derive(Clone, Copy, Debug, PartialEq, Eq, Structural)]
pub enum PackStage {
    /// `apelink` is writing the temporary file.
    Linking,
    /// `pecheck` is validating the temporary file.
    Checking,
    /// The temporary file is replacing the destination.
    Installing,
    /// The destination holds the new executable.
    Packaged,
    /// A step failed; the temporary file has been given up.
    Abandoned,
}

/// What the caller does next while packaging.
#[derive(Clone, Copy, Debug, PartialEq, Eq, Structural)]
pub enum PackAction {
    /// Run `apelink` with the plan's arguments.
    RunApelink,
    /// Run `pecheck` on the temporary file.
    RunPecheck,
    /// Rename the temporary file to the destination.
    Install,
    /// Remove the temporary file (best effort) and report the failure.
    RemoveTemporary,
    /// Report the finished executable.
    Report,
    /// Nothing is left to do.
    Stop,
}

/// The packaging machine: link, validate, then replace the destination; any
/// failure gives up the temporary file.
pub open spec fn pack_next(stage: PackStage, outcome: Outcome) -> (PackStage, PackAction) {
    match (stage, outcome) {
        (PackStage::Linking, Outcome::Succeeded) => (PackStage::Checking, PackAction::RunPecheck),
        (PackStage::Checking, Outcome::Succeeded) => (PackStage::Installing, PackAction::Install),
        (PackStage::Installing, Outcome::Succeeded) => (PackStage::Packaged, PackAction::Report),
        (PackStage::Linking, Outcome::Failed) => (PackStage::Abandoned, PackAction::RemoveTemporary),
        (PackStage::Checking, Outcome::Failed) => (PackStage::Abandoned, PackAction::RemoveTemporary),
        (PackStage::Installing, Outcome::Failed) => (PackStage::Abandoned, PackAction::RemoveTemporary),
        (s, _) => (s, PackAction::Stop),
    }
}

/// Packaging starts by linking.
pub fn pack_start() -> (r: (PackStage, PackAction))
    ensures
        r == (PackStage::Linking, PackAction::RunApelink),
{
    (PackStage::Linking, PackAction::RunApelink)
}

/// The next stage and action after the current action's outcome.
pub fn pack_step(stage: PackStage, outcome: Outcome) -> (r: (PackStage, PackAction))
    ensures
        r == pack_next(stage, outcome),
{
    match (stage, outcome) {
        (PackStage::Linking, Outcome::Succeeded) => (PackStage::Checking, PackAction::RunPecheck),
        (PackStage::Checking, Outcome::Succeeded) => (PackStage::Installing, PackAction::Install),
        (PackStage::Installing, Outcome::Succeeded) => (PackStage::Packaged, PackAction::Report),
        (PackStage::Linking, Outcome::Failed) => (PackStage::Abandoned, PackAction::RemoveTemporary),
        (PackStage::Checking, Outcome::Failed) => (PackStage::Abandoned, PackAction::RemoveTemporary),
        (PackStage::Installing, Outcome::Failed) => (PackStage::Abandoned, PackAction::RemoveTemporary),
        (s, _) => (s, PackAction::Stop),
    }
}

/// The stage after the outcomes `os`, from the start.
pub open spec fn pack_stage_after(os: Seq<Outcome>) -> PackStage
    decreases os.len(),
{
    if os.len() == 0 {
        PackStage::Linking
    } else {
        pack_next(pack_stage_after(os.drop_last()), os.last()).0
    }
}

/// The actions asked for, in order, while the outcomes `os` come in.
pub open spec fn pack_actions(os: Seq<Outcome>) -> Seq<PackAction>
    decreases os.len(),
{
    if os.len() == 0 {
        seq![PackAction::RunApelink]
    } else {
        pack_actions(os.drop_last()).push(pack_next(pack_stage_after(os.drop_last()), os.last()).1)
    }
}

/// Whether the first `k` outcomes all succeeded.
pub open spec fn all_succeeded(os: Seq<Outcome>, k: int) -> bool {
    k <= os.len() && forall|i: int| 0 <= i < k ==> os[i] == Outcome::Succeeded
}

proof fn lemma_pack_run(os: Seq<Outcome>)
    ensures
        pack_actions(os).len() == os.len() + 1,
        pack_stage_after(os) == (if all_succeeded(os, 3) {
            PackStage::Packaged
        } else if all_succeeded(os, os.len() as int) {
            if os.len() == 0 {
                PackStage::Linking
            } else if os.len() == 1 {
                PackStage::Checking
            } else {
                PackStage::Installing
            }
        } else {
            PackStage::Abandoned
        }),
        forall|i: int| 0 <= i < pack_actions(os).len() && pack_actions(os)[i] == PackAction::Install
            ==> i == 2 && all_succeeded(os, 2),
        forall|i: int| 0 <= i < pack_actions(os).len() && pack_actions(os)[i] == PackAction::Report
            ==> i == 3 && all_succeeded(os, 3),
        forall|i: int| 0 < i <= os.len() && i <= 3 && !all_succeeded(os, i) && all_succeeded(os, i - 1)
            ==> pack_actions(os)[i] == PackAction::RemoveTemporary,
    decreases os.len(),
{
    if os.len() > 0 {
        let p = os.drop_last();
        lemma_pack_run(p);
        lemma_all_succeeded_prefix(os);
        if os.len() > 3 && all_succeeded(os, 3) {
            assert(all_succeeded(p, 3));
        }
    }
}

/// Packaging law: the destination is replaced only after `apelink` and
/// `pecheck` both succeeded, the executable is reported only once it is in
/// place, and a failure of any packaging step gives up the temporary file
/// right away; packaging finishes exactly when all three steps succeeded.
pub proof fn law_packaging_order(os: Seq<Outcome>)
    ensures
        forall|i: int| 0 <= i < pack_actions(os).len() && pack_actions(os)[i] == PackAction::Install
            ==> os[0] == Outcome::Succeeded && os[1] == Outcome::Succeeded,
        forall|i: int| 0 <= i < pack_actions(os).len() && pack_actions(os)[i] == PackAction::Report
            ==> os[0] == Outcome::Succeeded && os[1] == Outcome::Succeeded && os[2] == Outcome::Succeeded,
        forall|i: int| 0 < i <= os.len() && i <= 3 && os[i - 1] == Outcome::Failed && all_succeeded(os, i - 1)
            ==> pack_actions(os)[i] == PackAction::RemoveTemporary,
        (pack_stage_after(os) == PackStage::Packaged) == all_succeeded(os, 3),
{
    lemma_pack_run(os);
    assert forall|i: int| 0 <= i < pack_actions(os).len() && pack_actions(os)[i] == PackAction::Install
        implies os[0] == Outcome::Succeeded && os[1] == Outcome::Succeeded by {
        assert(all_succeeded(os, 2));
    }
    assert forall|i: int| 0 <= i < pack_actions(os).len() && pack_actions(os)[i] == PackAction::Report
        implies os[0] == Outcome::Succeeded && os[1] == Outcome::Succeeded && os[2] == Outcome::Succeeded by {
        assert(all_succeeded(os, 3));
    }
    assert forall|i: int| 0 < i <= os.len() && i <= 3 && os[i - 1] == Outcome::Failed && all_succeeded(os, i - 1)
        implies pack_actions(os)[i] == PackAction::RemoveTemporary by {
        assert(!all_succeeded(os, i));
    }
}

/// Where the probing part of a preflight stands: the scratch directory is
/// created, the probe sources are written and the probes run in order; the
/// directory is removed before the preflight finishes.
#[derive(Clone, Copy, Debug, PartialEq, Eq, Structural)]
pub enum ProbeStage {
    /// The scratch directory is being created.
    Creating,
    /// The C probe source is being written.
    WritingProbe,
    /// The C probe step with this index is running.
    Probing(usize),
    /// The Rust probe source is being written.
    WritingHost,
    /// The host Rust probe is running.
    HostProbing,
    /// The scratch directory is being removed; whether every probe passed.
    Removing(bool),
    /// The preflight is over; whether it passed.
    Finished(bool),
}

/// What the caller does next while probing.
#[derive(Clone, Copy, Debug, PartialEq, Eq, Structural)]
pub enum ProbeAction {
    CreateScratch,
    WriteProbeSource,
    /// Run the C probe step with this index.
    RunProbe(usize),
    WriteHostSource,
    RunHostProbe,
    /// Remove the scratch directory (best effort).
    RemoveScratch,
    /// Report that the preflight passed.
    Pass,
    /// Report the failure that stopped the preflight.
    Fail,
}

/// Whether `stage` can occur with `n` C probe steps.
pub open spec fn probe_stage_valid(n: nat, stage: ProbeStage) -> bool {
    stage matches ProbeStage::Probing(i) ==> i < n
}

/// The probing machine with `n` C probe steps.
pub open spec fn probe_next(n: nat, stage: ProbeStage, outcome: Outcome) -> (ProbeStage, ProbeAction) {
    match stage {
        ProbeStage::Creating => if outcome == Outcome::Succeeded {
            (ProbeStage::WritingProbe, ProbeAction::WriteProbeSource)
        } else {
            (ProbeStage::Finished(false), ProbeAction::Fail)
        },
        ProbeStage::WritingProbe => if outcome == Outcome::Failed {
            (ProbeStage::Removing(false), ProbeAction::RemoveScratch)
        } else if n > 0 {
            (ProbeStage::Probing(0), ProbeAction::RunProbe(0))
        } else {
            (ProbeStage::WritingHost, ProbeAction::WriteHostSource)
        },
        ProbeStage::Probing(i) => if outcome == Outcome::Failed {
            (ProbeStage::Removing(false), ProbeAction::RemoveScratch)
        } else if i + 1 < n {
            (ProbeStage::Probing((i + 1) as usize), ProbeAction::RunProbe((i + 1) as usize))
        } else {
            (ProbeStage::WritingHost, ProbeAction::WriteHostSource)
        },
        ProbeStage::WritingHost => if outcome == Outcome::Failed {
            (ProbeStage::Removing(false), ProbeAction::RemoveScratch)
        } else {
            (ProbeStage::HostProbing, ProbeAction::RunHostProbe)
        },
        ProbeStage::HostProbing => if outcome == Outcome::Failed {
            (ProbeStage::Removing(false), ProbeAction::RemoveScratch)
        } else {
            (ProbeStage::Removing(true), ProbeAction::RemoveScratch)
        },
        ProbeStage::Removing(passed) => (
            ProbeStage::Finished(passed),
            if passed { ProbeAction::Pass } else { ProbeAction::Fail },
        ),
        ProbeStage::Finished(passed) => (
            ProbeStage::Finished(passed),
            if passed { ProbeAction::Pass } else { ProbeAction::Fail },
        ),
    }
}

/// Probing starts by creating the scratch directory.
pub fn probe_start() -> (r: (ProbeStage, ProbeAction))
    ensures
        r == (ProbeStage::Creating, ProbeAction::CreateScratch),
{
    (ProbeStage::Creating, ProbeAction::CreateScratch)
}

/// The next stage and action after the current action's outcome, with `n`
/// C probe steps.
pub fn probe_step(n: usize, stage: ProbeStage, outcome: Outcome) -> (r: (ProbeStage, ProbeAction))
    requires
        probe_stage_valid(n as nat, stage),
    ensures
        r == probe_next(n as nat, stage, outcome),
        probe_stage_valid(n as nat, r.0),
{
    match stage {
        ProbeStage::Creating => if outcome == Outcome::Succeeded {
            (ProbeStage::WritingProbe, ProbeAction::WriteProbeSource)
        } else {
            (ProbeStage::Finished(false), ProbeAction::Fail)
        },
        ProbeStage::WritingProbe => if outcome == Outcome::Failed {
            (ProbeStage::Removing(false), ProbeAction::RemoveScratch)
        } else if n > 0 {
            (ProbeStage::Probing(0), ProbeAction::RunProbe(0))
        } else {
            (ProbeStage::WritingHost, ProbeAction::WriteHostSource)
        },
        ProbeStage::Probing(i) => if outcome == Outcome::Failed {
            (ProbeStage::Removing(false), ProbeAction::RemoveScratch)
        } else if i + 1 < n {
            (ProbeStage::Probing(i + 1), ProbeAction::RunProbe(i + 1))
        } else {
            (ProbeStage::WritingHost, ProbeAction::WriteHostSource)
        },
        ProbeStage::WritingHost => if outcome == Outcome::Failed {
            (ProbeStage::Removing(false), ProbeAction::RemoveScratch)
        } else {
            (ProbeStage::HostProbing, ProbeAction::RunHostProbe)
        },
        ProbeStage::HostProbing => if outcome == Outcome::Failed {
            (ProbeStage::Removing(false), ProbeAction::RemoveScratch)
        } else {
            (ProbeStage::Removing(true), ProbeAction::RemoveScratch)
        },
        ProbeStage::Removing(passed) => (
            ProbeStage::Finished(passed),
            if passed { ProbeAction::Pass } else { ProbeAction::Fail },
        ),
        ProbeStage::Finished(passed) => (
            ProbeStage::Finished(passed),
            if passed { ProbeAction::Pass } else { ProbeAction::Fail },
        ),
    }
}

/// The stage after the outcomes `os`, from the start, with `n` C probe steps.
pub open spec fn probe_stage_after(n: nat, os: Seq<Outcome>) -> ProbeStage
    decreases os.len(),
{
    if os.len() == 0 {
        ProbeStage::Creating
    } else {
        probe_next(n, probe_stage_after(n, os.drop_last()), os.last()).0
    }
}

/// The actions asked for, in order, while the outcomes `os` come in.
pub open spec fn probe_actions(n: nat, os: Seq<Outcome>) -> Seq<ProbeAction>
    decreases os.len(),
{
    if os.len() == 0 {
        seq![ProbeAction::CreateScratch]
    } else {
        probe_actions(n, os.drop_last()).push(probe_next(n, probe_stage_after(n, os.drop_last()), os.last()).1)
    }
}

proof fn lemma_all_succeeded_prefix(os: Seq<Outcome>)
    requires
        os.len() > 0,
    ensures
        forall|k: int| 0 <= k < os.len() ==> all_succeeded(os.drop_last(), k) == all_succeeded(os, k),
        all_succeeded(os, os.len() as int) == (all_succeeded(os.drop_last(), os.len() - 1) && os.last()
            == Outcome::Succeeded),
{
    let p = os.drop_last();
    assert forall|k: int| 0 <= k < os.len() implies all_succeeded(p, k) == all_succeeded(os, k) by {
        if all_succeeded(os, k) {
            assert forall|i: int| 0 <= i < k implies p[i] == Outcome::Succeeded by {
                assert(os[i] == Outcome::Succeeded);
            }
        }
        if all_succeeded(p, k) {
            assert forall|i: int| 0 <= i < k implies os[i] == Outcome::Succeeded by {
                assert(p[i] == Outcome::Succeeded);
            }
        }
    }
    if all_succeeded(p, os.len() - 1) && os.last() == Outcome::Succeeded {
        assert forall|i: int| 0 <= i < os.len() implies os[i] == Outcome::Succeeded by {
            if i < p.len() {
                assert(p[i] == Outcome::Succeeded);
            }
        }
    }
    if all_succeeded(os, os.len() as int) {
        assert(os[os.len() - 1] == Outcome::Succeeded);
    }
}

proof fn lemma_probe_run(n: nat, os: Seq<Outcome>)
    requires
        n <= usize::MAX,
    ensures
        probe_stage_valid(n, probe_stage_after(n, os)),
        probe_actions(n, os).len() == os.len() + 1,
        ({
            let st = probe_stage_after(n, os);
            let acts = probe_actions(n, os);
            &&& st == ProbeStage::Creating ==> os.len() == 0
            &&& st == ProbeStage::WritingProbe ==> os.len() == 1 && all_succeeded(os, 1)
            &&& st matches ProbeStage::Probing(i) ==> os.len() == i + 2 && all_succeeded(os, os.len() as int)
            &&& st == ProbeStage::WritingHost ==> os.len() == n + 2 && all_succeeded(os, os.len() as int)
            &&& st == ProbeStage::HostProbing ==> os.len() == n + 3 && all_succeeded(os, os.len() as int)
            &&& st == ProbeStage::Removing(true) ==> os.len() == n + 4 && all_succeeded(os, n + 4int)
            &&& st == ProbeStage::Finished(true) ==> os.len() >= n + 5 && all_succeeded(os, n + 4int)
            &&& st == ProbeStage::Removing(false) ==> !all_succeeded(os, os.len() as int)
            &&& st == ProbeStage::Finished(false) ==> !all_succeeded(os, os.len() as int)
            &&& (st is Removing || st == ProbeStage::Finished(true)) ==> acts.contains(ProbeAction::RemoveScratch)
            &&& st == ProbeStage::Finished(false) ==> os[0] == Outcome::Failed || acts.contains(
                ProbeAction::RemoveScratch,
            )
            &&& forall|k: int| 0 <= k < n && k + 2 < acts.len() && all_succeeded(os, k + 2)
                ==> #[trigger] acts[k + 2] == ProbeAction::RunProbe(k as usize)
        }),
    decreases os.len(),
{
    if os.len() > 0 {
        let p = os.drop_last();
        lemma_probe_run(n, p);
        lemma_all_succeeded_prefix(os);
        let acts = probe_actions(n, os);
        let pacts = probe_actions(n, p);
        assert(forall|j: int| 0 <= j < pacts.len() ==> acts[j] == pacts[j]);
        let last = acts[acts.len() - 1];
        assert(pacts.contains(ProbeAction::RemoveScratch) ==> acts.contains(ProbeAction::RemoveScratch));
        if last == ProbeAction::RemoveScratch {
            assert(acts.contains(ProbeAction::RemoveScratch));
        }
        if os.len() >= 2 && all_succeeded(os, 2) {
            assert(all_succeeded(p, 1));
        }
        if all_succeeded(os, os.len() as int) && os.len() >= 2 && os.len() - 2 < n {
            if os.len() == 2 {
                assert(probe_stage_after(n, p) == ProbeStage::WritingProbe);
            } else {
                assert(probe_stage_after(n, p) == ProbeStage::Probing((os.len() - 3) as usize));
            }
            assert(acts[os.len() as int] == ProbeAction::RunProbe((os.len() - 2) as usize));
        }
        assert forall|k: int| 0 <= k < n && k + 2 < acts.len() && all_succeeded(os, k + 2)
            implies #[trigger] acts[k + 2] == ProbeAction::RunProbe(k as usize) by {
            if k + 2 < pacts.len() {
                assert(all_succeeded(p, k + 2));
                assert(pacts[k + 2] == ProbeAction::RunProbe(k as usize));
            }
        }
    }
}

/// Scratch-directory law: with any number of C probe steps and whatever
/// the outcomes, once the scratch directory has been created the preflight
/// finishes only after removing it; it passes only if creating it, writing
/// both sources and every probe succeeded, and then every C probe step was
/// run, in order.
pub proof fn law_scratch_removed(n: usize, os: Seq<Outcome>)
    ensures
        probe_stage_after(n as nat, os) is Finished && os.len() > 0 && os[0] == Outcome::Succeeded
            ==> probe_actions(n as nat, os).contains(ProbeAction::RemoveScratch),
        probe_stage_after(n as nat, os) == ProbeStage::Finished(true) ==> all_succeeded(os, n + 4int),
        probe_stage_after(n as nat, os) == ProbeStage::Finished(true) ==> forall|k: int| 0 <= k < n
            ==> #[trigger] probe_actions(n as nat, os)[k + 2] == ProbeAction::RunProbe(k as usize),
{
    lemma_probe_run(n as nat, os);
    if probe_stage_after(n as nat, os) == ProbeStage::Finished(true) {
        assert forall|k: int| 0 <= k < n implies #[trigger] probe_actions(n as nat, os)[k + 2]
            == ProbeAction::RunProbe(k as usize) by {
            assert(all_succeeded(os, k + 2));
        }
    }
}

/// Where a plan of steps run one after another stands: at a step, past the
/// last one, or stopped by a failure.
#[derive(Clone, Copy, Debug, PartialEq, Eq, Structural)]
pub enum PlanStage {
    /// The step with this index is being carried out.
    At(usize),
    /// Every step succeeded.
    Done,
    /// A step failed; nothing more is done.
    Stopped,
}

/// A plan of `total` steps: each success moves to the next step, the first
/// failure stops the plan.
pub open spec fn plan_next(total: nat, stage: PlanStage, outcome: Outcome) -> PlanStage {
    match stage {
        PlanStage::At(k) => if outcome == Outcome::Failed {
            PlanStage::Stopped
        } else if k + 1 < total {
            PlanStage::At((k + 1) as usize)
        } else {
            PlanStage::Done
        },
        other => other,
    }
}

/// Whether `stage` can occur in a plan of `total` steps.
pub open spec fn plan_stage_valid(total: nat, stage: PlanStage) -> bool {
    stage matches PlanStage::At(k) ==> k < total
}

/// The stage of a plan of `total` steps after the outcomes `os`.
pub open spec fn plan_after(total: nat, os: Seq<Outcome>) -> PlanStage
    decreases os.len(),
{
    if os.len() == 0 {
        PlanStage::At(0)
    } else {
        plan_next(total, plan_after(total, os.drop_last()), os.last())
    }
}

fn plan_advance(total: usize, stage: PlanStage, outcome: Outcome) -> (r: PlanStage)
    requires
        plan_stage_valid(total as nat, stage),
    ensures
        r == plan_next(total as nat, stage, outcome),
        plan_stage_valid(total as nat, r),
{
    match stage {
        PlanStage::At(k) => if outcome == Outcome::Failed {
            PlanStage::Stopped
        } else if k + 1 < total {
            PlanStage::At(k + 1)
        } else {
            PlanStage::Done
        },
        other => other,
    }
}

/// A plan is at step `k` exactly when its first `k` steps succeeded, done
/// when all its steps succeeded, and stopped once one failed.
proof fn lemma_plan_after(total: nat, os: Seq<Outcome>)
    requires
        0 < total <= usize::MAX,
    ensures
        plan_after(total, os) == (if os.len() < total {
            if all_succeeded(os, os.len() as int) {
                PlanStage::At(os.len() as usize)
            } else {
                PlanStage::Stopped
            }
        } else if all_succeeded(os, total as int) {
            PlanStage::Done
        } else {
            PlanStage::Stopped
        }),
    decreases os.len(),
{
    if os.len() > 0 {
        let p = os.drop_last();
        lemma_plan_after(total, p);
        lemma_all_succeeded_prefix(os);
        if p.len() >= total && all_succeeded(os, total as int) {
            assert(all_succeeded(p, total as int));
        }
    }
}

/// Plan law: the step with index `k` is carried out only after every step
/// before it succeeded; the plan is done exactly when all of its steps
/// succeeded.
pub proof fn law_plan_order(total: usize, os: Seq<Outcome>, k: usize)
    requires
        total > 0,
    ensures
        plan_after(total as nat, os) == PlanStage::At(k) ==> os.len() == k && all_succeeded(os, k as int),
        (plan_after(total as nat, os) == PlanStage::Done) == (os.len() >= total && all_succeeded(os, total as int)),
{
    lemma_plan_after(total as nat, os);
}

/// What the caller does next before a preflight probes: find the two
/// tools, check each required file, query the toolchain's version (which
/// must be a nightly) and sysroot, and check for `rust-src`.
#[derive(Clone, Copy, Debug, PartialEq, Eq, Structural)]
pub enum CheckAction {
    FindCosmocc,
    FindRustup,
    /// Check that the required file with this index exists.
    CheckFile(usize),
    QueryVersion,
    QuerySysroot,
    CheckRustSrc,
    /// Every check passed: go on to the probes.
    StartProbes,
    /// Report the failure that stopped the preflight.
    Fail,
}

/// The number of checks before probing, with `files` required files.
pub open spec fn check_total(files: nat) -> nat {
    files + 5
}

/// The check at index `k`, with `files` required files.
pub open spec fn check_at(files: nat, k: int) -> CheckAction {
    if k == 0 {
        CheckAction::FindCosmocc
    } else if k == 1 {
        CheckAction::FindRustup
    } else if k < files + 2 {
        CheckAction::CheckFile((k - 2) as usize)
    } else if k == files + 2 {
        CheckAction::QueryVersion
    } else if k == files + 3 {
        CheckAction::QuerySysroot
    } else {
        CheckAction::CheckRustSrc
    }
}

/// The action for a stage of the checks.
pub open spec fn check_action(files: nat, stage: PlanStage) -> CheckAction {
    match stage {
        PlanStage::At(k) => check_at(files, k as int),
        PlanStage::Done => CheckAction::StartProbes,
        PlanStage::Stopped => CheckAction::Fail,
    }
}

fn check_action_of(files: usize, stage: PlanStage) -> (r: CheckAction)
    requires
        plan_stage_valid(check_total(files as nat), stage),
    ensures
        r == check_action(files as nat, stage),
{
    match stage {
        PlanStage::At(k) => if k == 0 {
            CheckAction::FindCosmocc
        } else if k == 1 {
            CheckAction::FindRustup
        } else if k - 2 < files {
            CheckAction::CheckFile(k - 2)
        } else if k - 2 == files {
            CheckAction::QueryVersion
        } else if k - 3 == files {
            CheckAction::QuerySysroot
        } else {
            CheckAction::CheckRustSrc
        },
        PlanStage::Done => CheckAction::StartProbes,
        PlanStage::Stopped => CheckAction::Fail,
    }
}

/// The checks start by looking for `cosmocc`.
pub fn check_start(files: usize) -> (r: (PlanStage, CheckAction))
    ensures
        r == (PlanStage::At(0), CheckAction::FindCosmocc),
        plan_stage_valid(check_total(files as nat), r.0),
{
    (PlanStage::At(0), CheckAction::FindCosmocc)
}

/// The next stage and check after the current check's outcome.
pub fn check_step(files: usize, stage: PlanStage, outcome: Outcome) -> (r: (PlanStage, CheckAction))
    requires
        files + 5 <= usize::MAX,
        plan_stage_valid(check_total(files as nat), stage),
    ensures
        r.0 == plan_next(check_total(files as nat), stage, outcome),
        r.1 == check_action(files as nat, r.0),
        plan_stage_valid(check_total(files as nat), r.0),
{
    let next = plan_advance(files + 5, stage, outcome);
    (next, check_action_of(files, next))
}

/// Check-order law: `rustc` is queried, and the probes (which run the C
/// compilers) start, only after both tools were found and every required
/// file exists; `rust-src` is checked only after the version check passed.
pub proof fn law_compilers_run_after_the_files(files: usize, os: Seq<Outcome>)
    requires
        files + 5 <= usize::MAX,
    ensures
        check_action(files as nat, plan_after(check_total(files as nat), os)) == CheckAction::QueryVersion
            ==> all_succeeded(os, files + 2),
        check_action(files as nat, plan_after(check_total(files as nat), os)) == CheckAction::QuerySysroot
            ==> all_succeeded(os, files + 3),
        check_action(files as nat, plan_after(check_total(files as nat), os)) == CheckAction::CheckRustSrc
            ==> all_succeeded(os, files + 4),
        check_action(files as nat, plan_after(check_total(files as nat), os)) == CheckAction::StartProbes
            <==> all_succeeded(os, files + 5) && os.len() >= files + 5,
{
    lemma_plan_after(check_total(files as nat), os);
    lemma_all_succeeded_shorter(os);
}

proof fn lemma_all_succeeded_shorter(os: Seq<Outcome>)
    ensures
        forall|j: int, k: int| 0 <= j <= k && #[trigger] all_succeeded(os, k) ==> #[trigger] all_succeeded(os, j),
{
}

/// What the caller does next while building one architecture.
#[derive(Clone, Copy, Debug, PartialEq, Eq, Structural)]
pub enum ArchAction {
    /// Write the architecture's custom target specification.
    WriteTargetSpec,
    /// Write the launcher standing in for its archiver.
    WriteArLauncher,
    /// Run `cargo build` for it, reading Cargo's messages.
    RunCargo,
    /// Check that Cargo succeeded and built an executable.
    CheckBuild,
    /// Check that every executable built is an ELF file.
    CheckExecutables,
    /// The architecture is built.
    Built,
    /// Report the failure that stopped the build.
    Fail,
}

/// The number of steps of an architecture's build.
pub open spec fn arch_total() -> nat {
    5
}

/// The action for a stage of an architecture's build.
pub open spec fn arch_action(stage: PlanStage) -> ArchAction {
    match stage {
        PlanStage::At(k) => if k == 0 {
            ArchAction::WriteTargetSpec
        } else if k == 1 {
            ArchAction::WriteArLauncher
        } else if k == 2 {
            ArchAction::RunCargo
        } else if k == 3 {
            ArchAction::CheckBuild
        } else {
            ArchAction::CheckExecutables
        },
        PlanStage::Done => ArchAction::Built,
        PlanStage::Stopped => ArchAction::Fail,
    }
}

fn arch_action_of(stage: PlanStage) -> (r: ArchAction)
    ensures
        r == arch_action(stage),
{
    match stage {
        PlanStage::At(k) => if k == 0 {
            ArchAction::WriteTargetSpec
        } else if k == 1 {
            ArchAction::WriteArLauncher
        } else if k == 2 {
            ArchAction::RunCargo
        } else if k == 3 {
            ArchAction::CheckBuild
        } else {
            ArchAction::CheckExecutables
        },
        PlanStage::Done => ArchAction::Built,
        PlanStage::Stopped => ArchAction::Fail,
    }
}

/// An architecture's build starts by writing its target specification.
pub fn arch_start() -> (r: (PlanStage, ArchAction))
    ensures
        r == (PlanStage::At(0), ArchAction::WriteTargetSpec),
{
    (PlanStage::At(0), ArchAction::WriteTargetSpec)
}

/// The next stage and action of an architecture's build.
pub fn arch_step(stage: PlanStage, outcome: Outcome) -> (r: (PlanStage, ArchAction))
    requires
        plan_stage_valid(arch_total(), stage),
    ensures
        r.0 == plan_next(arch_total(), stage, outcome),
        r.1 == arch_action(r.0),
        plan_stage_valid(arch_total(), r.0),
{
    let next = plan_advance(5, stage, outcome);
    (next, arch_action_of(next))
}

/// Architecture-build law: Cargo runs only once the target specification
/// and the archiver launcher are written, and the executables are checked
/// only once Cargo succeeded and built one.
pub proof fn law_arch_build_order(os: Seq<Outcome>)
    ensures
        arch_action(plan_after(arch_total(), os)) == ArchAction::RunCargo ==> all_succeeded(os, 2),
        arch_action(plan_after(arch_total(), os)) == ArchAction::CheckExecutables ==> all_succeeded(os, 4),
        (arch_action(plan_after(arch_total(), os)) == ArchAction::Built) == (os.len() >= 5 && all_succeeded(os, 5)),
{
    lemma_plan_after(arch_total(), os);
    lemma_all_succeeded_shorter(os);
}

/// What the caller does next in a build.
#[derive(Clone, Copy, Debug, PartialEq, Eq, Structural)]
pub enum BuildAction {
    /// Ask `cargo metadata` for the target directory and create the directories.
    FindTargetDirectory,
    /// Build for x86-64.
    BuildX86_64,
    /// Build for ARM64.
    BuildAarch64,
    /// Check that both built the same executables.
    CompareTargets,
    /// Package every executable.
    PackageAll,
    /// The build is finished.
    Finish,
    /// Report the failure that stopped the build.
    Fail,
}

/// The number of steps of a build.
pub open spec fn build_total() -> nat {
    5
}

/// The action for a stage of a build.
pub open spec fn build_action(stage: PlanStage) -> BuildAction {
    match stage {
        PlanStage::At(k) => if k == 0 {
            BuildAction::FindTargetDirectory
        } else if k == 1 {
            BuildAction::BuildX86_64
        } else if k == 2 {
            BuildAction::BuildAarch64
        } else if k == 3 {
            BuildAction::CompareTargets
        } else {
            BuildAction::PackageAll
        },
        PlanStage::Done => BuildAction::Finish,
        PlanStage::Stopped => BuildAction::Fail,
    }
}

fn build_action_of(stage: PlanStage) -> (r: BuildAction)
    ensures
        r == build_action(stage),
{
    match stage {
        PlanStage::At(k) => if k == 0 {
            BuildAction::FindTargetDirectory
        } else if k == 1 {
            BuildAction::BuildX86_64
        } else if k == 2 {
            BuildAction::BuildAarch64
        } else if k == 3 {
            BuildAction::CompareTargets
        } else {
            BuildAction::PackageAll
        },
        PlanStage::Done => BuildAction::Finish,
        PlanStage::Stopped => BuildAction::Fail,
    }
}

/// A build starts by finding Cargo's target directory.
pub fn build_start() -> (r: (PlanStage, BuildAction))
    ensures
        r == (PlanStage::At(0), BuildAction::FindTargetDirectory),
{
    (PlanStage::At(0), BuildAction::FindTargetDirectory)
}

/// The next stage and action of a build.
pub fn build_step(stage: PlanStage, outcome: Outcome) -> (r: (PlanStage, BuildAction))
    requires
        plan_stage_valid(build_total(), stage),
    ensures
        r.0 == plan_next(build_total(), stage, outcome),
        r.1 == build_action(r.0),
        plan_stage_valid(build_total(), r.0),
{
    let next = plan_advance(5, stage, outcome);
    (next, build_action_of(next))
}

/// Build-order law: ARM64 is built only after x86-64 was, the two are
/// compared only once both are built, and nothing is packaged unless they
/// built the same executables.
pub proof fn law_build_order(os: Seq<Outcome>)
    ensures
        build_action(plan_after(build_total(), os)) == BuildAction::BuildAarch64 ==> all_succeeded(os, 2),
        build_action(plan_after(build_total(), os)) == BuildAction::CompareTargets ==> all_succeeded(os, 3),
        build_action(plan_after(build_total(), os)) == BuildAction::PackageAll ==> all_succeeded(os, 4),
        (build_action(plan_after(build_total(), os)) == BuildAction::Finish) == (os.len() >= 5 && all_succeeded(os, 5)),
{
    lemma_plan_after(build_total(), os);
    lemma_all_succeeded_shorter(os);
}

} // verus!
