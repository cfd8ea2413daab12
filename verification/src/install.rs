//! The installer's decision core. Making a tool available alternates plain
//! decisions with outside work (an existence probe, a network fetch, a file
//! copy, an archive extraction, a child process). Every decision is made
//! here: `plan_install` turns the observed facts into the one step to
//! perform, `finish_install` turns the step's reported result into the
//! install outcome, and `register_install` hands the resolved directory to
//! the search path on success. The surrounding program only performs the
//! planned step and reports how it went.

use vstd::prelude::*;
use crate::catalog::{ArtifactKind, ToolSpec};
use crate::paths::{join_spec, sep_char};
use crate::search_path::{lemma_prepended_dir_found, seq_finds, SearchPathContext};

verus! {

/// Why an installation failed.
#[derive(Clone, Copy, Debug, PartialEq, Eq, Structural)]
pub enum ErrorKind {
    /// The fetch could not be completed.
    NetworkError,
    /// The downloaded archive could not be parsed or extracted.
    ArchiveFormatError,
    /// A filesystem create, write, copy or delete failed.
    IoError,
    /// A self-installing executable exited with a failing status.
    InstallerExitFailure,
}

/// Result of attempting to make a tool available.
#[derive(Debug)]
pub enum InstallOutcome {
    /// The tool was already present at `location`; nothing was done.
    AlreadyAvailable { location: String },
    /// The tool was installed and now resides under `location`.
    Installed { location: String },
    /// Installation was aborted by the given cause.
    Failed { cause: ErrorKind },
}

/// The one step the installer asks the surrounding program to perform.
#[derive(Debug)]
pub enum InstallStep {
    /// The target already exists: perform nothing.
    Skip,
    /// Copy the pre-seeded file `source`, found beside the running program,
    /// to `dest`.
    CopyLocal { source: String, dest: String },
    /// Fetch `url` and write the body verbatim to `dest`.
    FetchExecutable { url: String, dest: String },
    /// Fetch `url` into `temp_path`, extract the archive into `extract_dir`
    /// (stripping its top-level directory when `flatten` holds), then delete
    /// `temp_path`.
    FetchArchive { url: String, temp_path: String, extract_dir: String, flatten: bool },
    /// Fetch `url` into `temp_path`, run it with the unattended flag `flag`,
    /// then delete `temp_path` regardless of its exit status.
    FetchInstaller { url: String, temp_path: String, flag: String },
}

/// How the performed step went, as reported back by the surrounding program.
#[derive(Clone, Copy, Debug, PartialEq, Eq, Structural)]
pub enum StepResult {
    /// The step ran to completion.
    Completed,
    /// The fetch could not be completed; nothing was written to the final
    /// target.
    NetworkFailure,
    /// The archive could not be parsed or extracted.
    ArchiveFailure,
    /// A filesystem create, write, copy or delete failed.
    IoFailure,
    /// The self-installing executable exited with a failing status.
    InstallerFailure,
}

/// The shape of an install step, with its payload stripped.
#[derive(Clone, Copy, Debug, PartialEq, Eq, Structural)]
pub enum StepKind {
    Skip,
    CopyLocal,
    FetchExecutable,
    FetchArchive,
    FetchInstaller,
}

/// The shape of `step`.
pub open spec fn step_kind(step: InstallStep) -> StepKind {
    match step {
        InstallStep::Skip => StepKind::Skip,
        InstallStep::CopyLocal { .. } => StepKind::CopyLocal,
        InstallStep::FetchExecutable { .. } => StepKind::FetchExecutable,
        InstallStep::FetchArchive { .. } => StepKind::FetchArchive,
        InstallStep::FetchInstaller { .. } => StepKind::FetchInstaller,
    }
}

/// A step of this shape goes over the network.
pub open spec fn is_network_kind(k: StepKind) -> bool {
    k == StepKind::FetchExecutable || k == StepKind::FetchArchive || k == StepKind::FetchInstaller
}

/// The shape of the step the installer plans from the observed facts: an
/// existing target short-circuits everything, a pre-seeded local copy is
/// preferred over the network, and only otherwise is the artifact fetched in
/// the mode its kind calls for.
pub open spec fn planned_kind(ts: ToolSpec, target_exists: bool, local_copy_exists: bool)
    -> StepKind {
    if target_exists {
        StepKind::Skip
    } else if local_copy_exists {
        StepKind::CopyLocal
    } else {
        match ts.kind {
            ArtifactKind::Executable => StepKind::FetchExecutable,
            ArtifactKind::Archive { .. } => StepKind::FetchArchive,
            ArtifactKind::SilentInstaller { .. } => StepKind::FetchInstaller,
        }
    }
}

/// Staging path of an archive fetch: the archive is downloaded beside the
/// extraction directory under the same name with the archive suffix.
pub open spec fn archive_temp_spec(ts: ToolSpec) -> Seq<char> {
    ts.install_dir@ + ".zip"@
}

/// Staging path of a self-installer fetch: a file named after the tool in
/// the current working directory.
pub open spec fn installer_temp_spec(ts: ToolSpec) -> Seq<char> {
    ts.name@ + "_installer.exe"@
}

/// Computes the path described by [`archive_temp_spec`].
pub fn archive_temp_path(ts: &ToolSpec) -> (r: String)
    ensures
        r@ == archive_temp_spec(*ts),
{
    ts.install_dir.clone().concat(".zip")
}

/// Computes the path described by [`installer_temp_spec`].
pub fn installer_temp_path(ts: &ToolSpec) -> (r: String)
    ensures
        r@ == installer_temp_spec(*ts),
{
    ts.name.clone().concat("_installer.exe")
}

/// Plans the one step that makes `ts` available, from two observed facts:
/// whether the target path already exists on disk, and whether a same-named
/// pre-seeded file exists beside the running program.
pub fn plan_install(ts: &ToolSpec, target_exists: bool, local_copy_exists: bool)
    -> (step: InstallStep)
    ensures
        step_kind(step) == planned_kind(*ts, target_exists, local_copy_exists),
        (step matches InstallStep::CopyLocal { source, dest } ==> source@ == ts.exe_name@
            && dest@ == ts.target_path_spec()),
        (step matches InstallStep::FetchExecutable { url, dest } ==> url@ == ts.url@
            && dest@ == ts.target_path_spec()),
        (step matches InstallStep::FetchArchive { url, temp_path, extract_dir, flatten }
            ==> url@ == ts.url@ && temp_path@ == archive_temp_spec(*ts)
            && extract_dir@ == ts.install_dir@
            && (ts.kind matches ArtifactKind::Archive { flatten: f, bin_subdir: _ }
                && flatten == f)),
        (step matches InstallStep::FetchInstaller { url, temp_path, flag } ==> url@ == ts.url@
            && temp_path@ == installer_temp_spec(*ts)
            && (ts.kind matches ArtifactKind::SilentInstaller { flag: g } && flag@ == g@)),
{
    if target_exists {
        InstallStep::Skip
    } else if local_copy_exists {
        InstallStep::CopyLocal { source: ts.exe_name.clone(), dest: ts.target_path() }
    } else {
        match &ts.kind {
            ArtifactKind::Executable => InstallStep::FetchExecutable {
                url: ts.url.clone(),
                dest: ts.target_path(),
            },
            ArtifactKind::Archive { flatten, bin_subdir: _ } => InstallStep::FetchArchive {
                url: ts.url.clone(),
                temp_path: archive_temp_path(ts),
                extract_dir: ts.install_dir.clone(),
                flatten: *flatten,
            },
            ArtifactKind::SilentInstaller { flag } => InstallStep::FetchInstaller {
                url: ts.url.clone(),
                temp_path: installer_temp_path(ts),
                flag: flag.clone(),
            },
        }
    }
}

/// The failure an unsuccessful step result surfaces as.
pub open spec fn failure_cause(result: StepResult) -> Option<ErrorKind> {
    match result {
        StepResult::Completed => None,
        StepResult::NetworkFailure => Some(ErrorKind::NetworkError),
        StepResult::ArchiveFailure => Some(ErrorKind::ArchiveFormatError),
        StepResult::IoFailure => Some(ErrorKind::IoError),
        StepResult::InstallerFailure => Some(ErrorKind::InstallerExitFailure),
    }
}

/// Turns the reported result of the performed step into the install outcome:
/// a completed skip means the tool was already available, any other
/// completed step means it was installed at its resolved directory, and each
/// failure surfaces as `Failed` with its cause.
pub fn finish_install(ts: &ToolSpec, step: &InstallStep, result: StepResult)
    -> (outcome: InstallOutcome)
    ensures
        outcome is AlreadyAvailable <==> (result == StepResult::Completed && step is Skip),
        outcome is Installed <==> (result == StepResult::Completed && !(step is Skip)),
        outcome is Failed <==> result != StepResult::Completed,
        (outcome matches InstallOutcome::AlreadyAvailable { location } ==> location@
            == ts.resolved_dir_spec()),
        (outcome matches InstallOutcome::Installed { location } ==> location@
            == ts.resolved_dir_spec()),
        (outcome matches InstallOutcome::Failed { cause } ==> Some(cause)
            == failure_cause(result)),
{
    match result {
        StepResult::Completed => match step {
            InstallStep::Skip => InstallOutcome::AlreadyAvailable { location: ts.resolved_dir() },
            _ => InstallOutcome::Installed { location: ts.resolved_dir() },
        },
        StepResult::NetworkFailure => InstallOutcome::Failed { cause: ErrorKind::NetworkError },
        StepResult::ArchiveFailure => InstallOutcome::Failed {
            cause: ErrorKind::ArchiveFormatError,
        },
        StepResult::IoFailure => InstallOutcome::Failed { cause: ErrorKind::IoError },
        StepResult::InstallerFailure => InstallOutcome::Failed {
            cause: ErrorKind::InstallerExitFailure,
        },
    }
}

/// Hands the location of a successful outcome to the search path, making it
/// the highest-priority entry; a failed outcome leaves the search path
/// untouched.
pub fn register_install(outcome: &InstallOutcome, ctx: &mut SearchPathContext)
    ensures
        (*outcome matches InstallOutcome::AlreadyAvailable { location } ==> final(ctx).dirs@
            == old(ctx).dirs@.insert(0, location)),
        (*outcome matches InstallOutcome::Installed { location } ==> final(ctx).dirs@
            == old(ctx).dirs@.insert(0, location)),
        (outcome is Failed ==> *final(ctx) == *old(ctx)),
{
    match outcome {
        InstallOutcome::AlreadyAvailable { location } => ctx.prepend(location.clone()),
        InstallOutcome::Installed { location } => ctx.prepend(location.clone()),
        InstallOutcome::Failed { .. } => (),
    }
}

/// Finishes the performed step and registers its outcome in one go: on any
/// completed step the resolved directory of `ts` becomes the head of the
/// search path with every earlier entry kept behind it; on a failure the
/// search path is untouched.
pub fn complete_install(
    ts: &ToolSpec,
    step: &InstallStep,
    result: StepResult,
    ctx: &mut SearchPathContext,
) -> (outcome: InstallOutcome)
    ensures
        outcome is AlreadyAvailable <==> (result == StepResult::Completed && step is Skip),
        outcome is Installed <==> (result == StepResult::Completed && !(step is Skip)),
        outcome is Failed <==> result != StepResult::Completed,
        (outcome matches InstallOutcome::AlreadyAvailable { location } ==> location@
            == ts.resolved_dir_spec()),
        (outcome matches InstallOutcome::Installed { location } ==> location@
            == ts.resolved_dir_spec()),
        (outcome matches InstallOutcome::Failed { cause } ==> Some(cause)
            == failure_cause(result)),
        result == StepResult::Completed ==> final(ctx).dirs@.len() == old(ctx).dirs@.len() + 1
            && final(ctx).dirs@[0]@ == ts.resolved_dir_spec()
            && final(ctx).dirs@.skip(1) == old(ctx).dirs@,
        result != StepResult::Completed ==> *final(ctx) == *old(ctx),
{
    let outcome = finish_install(ts, step, result);
    register_install(&outcome, ctx);
    proof {
        if result == StepResult::Completed {
            assert(final(ctx).dirs@.skip(1) =~= old(ctx).dirs@);
        }
    }
    outcome
}

/// The paths that exist after a completed install step: at least the final
/// target path, besides everything that existed before.
pub open spec fn paths_after_success(fs: Set<Seq<char>>, ts: ToolSpec) -> Set<Seq<char>> {
    fs.insert(ts.target_path_spec())
}

/// Law: for a tool whose target install path already exists, the planned
/// step is the skip step — zero network fetches of any kind.
pub proof fn lemma_existing_target_skips(ts: ToolSpec, local_copy_exists: bool)
    ensures
        planned_kind(ts, true, local_copy_exists) == StepKind::Skip,
        !is_network_kind(planned_kind(ts, true, local_copy_exists)),
{
}

/// Law: for a tool whose target is absent while a same-named pre-seeded file
/// sits beside the program, the plan is a local file copy — zero network
/// fetches of any kind.
pub proof fn lemma_local_copy_avoids_network(ts: ToolSpec)
    ensures
        planned_kind(ts, false, true) == StepKind::CopyLocal,
        !is_network_kind(planned_kind(ts, false, true)),
{
}

/// Law: installation is idempotent across runs. A second run that probes the
/// filesystem a successful first install left behind sees the target present
/// and plans the skip step: nothing is downloaded or extracted again.
pub proof fn lemma_reinstall_is_noop(fs: Set<Seq<char>>, ts: ToolSpec, local_copy_exists: bool)
    ensures
        paths_after_success(fs, ts).contains(ts.target_path_spec()),
        planned_kind(
            ts,
            paths_after_success(fs, ts).contains(ts.target_path_spec()),
            local_copy_exists,
        ) == StepKind::Skip,
        !is_network_kind(StepKind::Skip),
{
}

/// Law: once a successful install's resolved directory is registered, it is
/// the head entry of the search path, and a probe that resolves the tool's
/// executable through the search path, against the filesystem the install
/// left behind, succeeds.
pub proof fn lemma_probe_after_install(
    fs: Set<Seq<char>>,
    ts: ToolSpec,
    dirs: Seq<String>,
    head: String,
)
    requires
        head@ == ts.resolved_dir_spec(),
    ensures
        dirs.insert(0, head)[0] == head,
        seq_finds(dirs.insert(0, head), paths_after_success(fs, ts), ts.exe_name@),
{
    let fs2 = paths_after_success(fs, ts);
    assert(fs2.contains(join_spec(head@, ts.exe_name@)));
    lemma_prepended_dir_found(dirs, head, fs2, ts.exe_name@);
}

/// Law: the staging paths used while fetching are distinct from the final
/// target path, so an interrupted or failed fetch can leave a file only at
/// the staging path, never a half-written final target.
pub proof fn lemma_staging_distinct_from_target(ts: ToolSpec)
    requires
        ts.wf(),
    ensures
        archive_temp_spec(ts) != ts.target_path_spec(),
        installer_temp_spec(ts) != ts.target_path_spec(),
{
    reveal_strlit(".zip");
    reveal_strlit("_installer.exe");
    let d = ts.install_dir@;
    let target = ts.target_path_spec();
    // In every artifact kind the target path carries a separator right after
    // the install directory.
    assert(target[d.len() as int] == sep_char());
    assert(archive_temp_spec(ts)[d.len() as int] == '.');
    // The installer staging path is a bare file name: no separator anywhere.
    let temp = installer_temp_spec(ts);
    assert forall|i: int| 0 <= i < temp.len() implies temp[i] != sep_char() by {
        if i < ts.name@.len() {
            assert(!ts.name@.contains(sep_char()));
            assert(temp[i] == ts.name@[i]);
        } else {
            assert(temp[i] == "_installer.exe"@[i - ts.name@.len()]);
        }
    }
    let r = ts.resolved_dir_spec();
    assert(target[r.len() as int] == sep_char());
    if temp == target {
        assert(temp[r.len() as int] == sep_char());
    }
}

} // verus!
