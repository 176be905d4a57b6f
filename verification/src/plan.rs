//! Operation planning: from a request and what the filesystem shows to the
//! one action this process takes.
//!
//! The caller observes the filesystem (does the destination exist? is the
//! source a file, a directory, or missing?), hands the observation in, and
//! gets a plan back: re-execute elevated, act at once, ask the user first,
//! or reject the request.  A plan that acts carries the operation to run,
//! the report for success and the message prefix for failure; a plan that
//! asks also carries the prompt line and the report for a declined answer.
//!
//! On the `xfetch` surface nothing but re-execution is ever planned for an
//! unelevated process.  On the `import` path a directory is copied
//! recursively, as a full subtree; on the `copy`/`paste` surface both files
//! and directories go through a single-entry copy, which does not descend
//! into a directory's contents.

use vstd::prelude::*;
use crate::confirm::answer_confirms;
use crate::confirm::overwrite_prompt;
use crate::confirm::prompt_for;
use crate::paths::import_dest_spec;
use crate::paths::import_target;
use crate::report::Report;
use crate::report::ReportModel;
use crate::report::Severity;
use crate::request::ReqModel;
use crate::request::Request;
use crate::request::Variant;
use crate::request::opt_view;
use vstd::string::StringExecFns;

verus! {

/// What the filesystem shows about a path: a regular file, a directory, or
/// nothing usable.
#[derive(Clone, Copy, Debug, PartialEq, Eq, Structural)]
pub enum PathKind {
    File,
    Dir,
    Missing,
}

/// What the caller observed on the filesystem before planning: for
/// `create`, whether the target path exists; for the copying subcommands,
/// what the source is and whether the resolved destination exists.
#[derive(Clone, Copy, Debug, PartialEq, Eq, Structural)]
pub enum Observation {
    ForCreate { exists: bool },
    ForTransfer { source_kind: PathKind, dest_exists: bool },
}

/// The mathematical value of a filesystem operation.
#[verifier::ext_equal]
pub enum OpModel {
    CreateFile { path: Seq<char> },
    CreateDir { path: Seq<char> },
    CopyFile { source: Seq<char>, dest: Seq<char> },
    CopyTree { source: Seq<char>, dest: Seq<char> },
    CopyEntry { source: Seq<char>, dest: Seq<char> },
}

/// One filesystem operation for the caller to run.
#[derive(Debug)]
pub enum FsOp {
    /// Create an empty regular file, truncating an existing one.
    CreateFile { path: String },
    /// Create an empty directory; fails when the parent is missing.
    CreateDir { path: String },
    /// Copy one regular file, overwriting the destination.
    CopyFile { source: String, dest: String },
    /// Copy a directory recursively, as a full subtree, into `dest`.
    CopyTree { source: String, dest: String },
    /// Copy a single entry — file or directory node — without descending
    /// into a directory's contents.
    CopyEntry { source: String, dest: String },
}

impl View for FsOp {
    type V = OpModel;

    open spec fn view(&self) -> OpModel {
        match self {
            FsOp::CreateFile { path } => OpModel::CreateFile { path: path@ },
            FsOp::CreateDir { path } => OpModel::CreateDir { path: path@ },
            FsOp::CopyFile { source, dest } => OpModel::CopyFile {
                source: source@,
                dest: dest@,
            },
            FsOp::CopyTree { source, dest } => OpModel::CopyTree {
                source: source@,
                dest: dest@,
            },
            FsOp::CopyEntry { source, dest } => OpModel::CopyEntry {
                source: source@,
                dest: dest@,
            },
        }
    }
}

/// The mathematical value of an action.
#[verifier::ext_equal]
pub enum ActionModel {
    Perform { op: OpModel, done: ReportModel, fail_prefix: Seq<char> },
    Reject { report: ReportModel },
}

/// What happens once the request is allowed to proceed: run an operation —
/// reporting `done` on success and `fail_prefix` plus the underlying error
/// on failure — or reject the request with a report.
#[derive(Debug)]
pub enum Action {
    Perform { op: FsOp, done: Report, fail_prefix: String },
    Reject { report: Report },
}

impl View for Action {
    type V = ActionModel;

    open spec fn view(&self) -> ActionModel {
        match self {
            Action::Perform { op, done, fail_prefix } => ActionModel::Perform {
                op: op@,
                done: done@,
                fail_prefix: fail_prefix@,
            },
            Action::Reject { report } => ActionModel::Reject { report: report@ },
        }
    }
}

/// The mathematical value of a plan.
#[verifier::ext_equal]
pub enum PlanModel {
    Reexec,
    Act { action: ActionModel },
    Ask { prompt: Seq<char>, then: ActionModel, skip: ReportModel },
}

/// The one thing this process does for the request.
#[derive(Debug)]
pub enum Plan {
    /// Re-execute the same command line with elevated privileges and do
    /// nothing else in this process.
    Reexec,
    /// Take the action at once.
    Act { action: Action },
    /// Show `prompt`, read one answer line, and resolve it: a confirming
    /// answer takes `then`, any other emits `skip`.
    Ask { prompt: String, then: Action, skip: Report },
}

impl View for Plan {
    type V = PlanModel;

    open spec fn view(&self) -> PlanModel {
        match self {
            Plan::Reexec => PlanModel::Reexec,
            Plan::Act { action } => PlanModel::Act { action: action@ },
            Plan::Ask { prompt, then, skip } => PlanModel::Ask {
                prompt: prompt@,
                then: then@,
                skip: skip@,
            },
        }
    }
}

/// An informational success report.
pub open spec fn done_report(body: Seq<char>) -> ReportModel {
    ReportModel { severity: Severity::Info, title: "Success"@, body }
}

/// The warning report for a declined overwrite.
pub open spec fn skip_report(body: Seq<char>) -> ReportModel {
    ReportModel { severity: Severity::Warning, title: "Skipped"@, body }
}

/// The error report for a copy source that is neither file nor directory.
pub open spec fn missing_source_report() -> ReportModel {
    ReportModel {
        severity: Severity::Error,
        title: "Error"@,
        body: "The specified path does not exist."@,
    }
}

/// The action of a `create` request.
pub open spec fn create_action(path: Seq<char>, directory: bool) -> ActionModel {
    if directory {
        ActionModel::Perform {
            op: OpModel::CreateDir { path },
            done: done_report("Directory created: "@ + path),
            fail_prefix: "Failed to create directory: "@,
        }
    } else {
        ActionModel::Perform {
            op: OpModel::CreateFile { path },
            done: done_report("File created: "@ + path),
            fail_prefix: "Failed to create file: "@,
        }
    }
}

/// The destination directory of an `import`: the one given, or the current
/// directory.
pub open spec fn import_dir(destination: Option<Seq<char>>) -> Seq<char> {
    match destination {
        Some(d) => d,
        None => seq!['.'],
    }
}

/// The action of an `import` request, by what the source turned out to be.
pub open spec fn import_action(source: Seq<char>, dir: Seq<char>, kind: PathKind) -> ActionModel {
    match kind {
        PathKind::File => ActionModel::Perform {
            op: OpModel::CopyFile { source, dest: import_dest_spec(source, dir) },
            done: done_report("File imported to: "@ + dir),
            fail_prefix: "Failed to import file: "@,
        },
        PathKind::Dir => ActionModel::Perform {
            op: OpModel::CopyTree { source, dest: dir },
            done: done_report("Directory imported to: "@ + dir),
            fail_prefix: "Failed to import directory: "@,
        },
        PathKind::Missing => ActionModel::Reject { report: missing_source_report() },
    }
}

/// The action of a `copy` or `paste` request, by what the source turned out
/// to be.
pub open spec fn transfer_action(source: Seq<char>, dest: Seq<char>, kind: PathKind) -> ActionModel {
    match kind {
        PathKind::Missing => ActionModel::Reject { report: missing_source_report() },
        _ => ActionModel::Perform {
            op: OpModel::CopyEntry { source, dest },
            done: done_report("Item copied to: "@ + dest),
            fail_prefix: "Failed to copy: "@,
        },
    }
}

/// Wraps an action behind the overwrite prompt when the destination already
/// exists.  `shown` is the path the prompt and the skip report name; an
/// action is only ever guarded, never dropped, so declining is the sole way
/// an existing destination stays untouched.
pub open spec fn guarded(
    action: ActionModel,
    dest_exists: bool,
    shown: Seq<char>,
    skip_body: Seq<char>,
) -> PlanModel {
    if dest_exists {
        PlanModel::Ask { prompt: prompt_for(shown), then: action, skip: skip_report(skip_body) }
    } else {
        PlanModel::Act { action }
    }
}

/// What the process does for a request, given its elevation and what the
/// caller observed on the filesystem.
pub open spec fn plan_spec(
    variant: Variant,
    req: ReqModel,
    elevated: bool,
    obs: Observation,
) -> PlanModel {
    if variant == Variant::Xfetch && !elevated {
        PlanModel::Reexec
    } else {
        match req {
            ReqModel::Create { path, directory } => {
                let exists = obs matches Observation::ForCreate { exists } && exists;
                let skip_body = if directory {
                    "Directory not overwritten: "@ + path
                } else {
                    "File not overwritten: "@ + path
                };
                guarded(create_action(path, directory), exists, path, skip_body)
            },
            ReqModel::Import { source, destination } => {
                let dir = import_dir(destination);
                let kind = obs_kind(obs);
                guarded(
                    import_action(source, dir, kind),
                    obs_dest_exists(obs),
                    dir,
                    "Item not overwritten: "@ + dir,
                )
            },
            ReqModel::Copy { source, destination } => guarded(
                transfer_action(source, destination, obs_kind(obs)),
                obs_dest_exists(obs),
                destination,
                "Item not overwritten: "@ + destination,
            ),
            ReqModel::Paste { source, destination } => guarded(
                transfer_action(source, destination, obs_kind(obs)),
                obs_dest_exists(obs),
                destination,
                "Item not overwritten: "@ + destination,
            ),
        }
    }
}

/// The source kind of a transfer observation.
pub open spec fn obs_kind(obs: Observation) -> PathKind {
    match obs {
        Observation::ForTransfer { source_kind, .. } => source_kind,
        Observation::ForCreate { .. } => PathKind::Missing,
    }
}

/// Whether a transfer observation saw an existing destination.
pub open spec fn obs_dest_exists(obs: Observation) -> bool {
    match obs {
        Observation::ForTransfer { dest_exists, .. } => dest_exists,
        Observation::ForCreate { exists } => exists,
    }
}

/// A fixed prefix followed by a path.
fn prefixed(prefix: &str, rest: &str) -> (r: String)
    ensures
        r@ == prefix@ + rest@,
{
    let mut s = prefix.to_owned();
    s.append(rest);
    s
}

/// An informational success report.
fn build_done(body: String) -> (r: Report)
    ensures
        r@ == done_report(body@),
{
    Report { severity: Severity::Info, title: String::from_str("Success"), body }
}

/// The warning report for a declined overwrite.
fn build_skip(body: String) -> (r: Report)
    ensures
        r@ == skip_report(body@),
{
    Report { severity: Severity::Warning, title: String::from_str("Skipped"), body }
}

/// The error report for a missing copy source.
fn build_missing_source() -> (r: Report)
    ensures
        r@ == missing_source_report(),
{
    Report {
        severity: Severity::Error,
        title: String::from_str("Error"),
        body: String::from_str("The specified path does not exist."),
    }
}

/// Builds the action of a `create` request.
fn build_create_action(path: &String, directory: bool) -> (a: Action)
    ensures
        a@ == create_action(path@, directory),
{
    if directory {
        Action::Perform {
            op: FsOp::CreateDir { path: path.clone() },
            done: build_done(prefixed("Directory created: ", path.as_str())),
            fail_prefix: String::from_str("Failed to create directory: "),
        }
    } else {
        Action::Perform {
            op: FsOp::CreateFile { path: path.clone() },
            done: build_done(prefixed("File created: ", path.as_str())),
            fail_prefix: String::from_str("Failed to create file: "),
        }
    }
}

/// Builds the action of an `import` request.
fn build_import_action(source: &String, dir: &String, kind: PathKind) -> (a: Action)
    ensures
        a@ == import_action(source@, dir@, kind),
{
    match kind {
        PathKind::File => Action::Perform {
            op: FsOp::CopyFile {
                source: source.clone(),
                dest: import_target(source.as_str(), dir.as_str()),
            },
            done: build_done(prefixed("File imported to: ", dir.as_str())),
            fail_prefix: String::from_str("Failed to import file: "),
        },
        PathKind::Dir => Action::Perform {
            op: FsOp::CopyTree { source: source.clone(), dest: dir.clone() },
            done: build_done(prefixed("Directory imported to: ", dir.as_str())),
            fail_prefix: String::from_str("Failed to import directory: "),
        },
        PathKind::Missing => Action::Reject { report: build_missing_source() },
    }
}

/// Builds the action of a `copy` or `paste` request.
fn build_transfer_action(source: &String, dest: &String, kind: PathKind) -> (a: Action)
    ensures
        a@ == transfer_action(source@, dest@, kind),
{
    match kind {
        PathKind::Missing => Action::Reject { report: build_missing_source() },
        _ => Action::Perform {
            op: FsOp::CopyEntry { source: source.clone(), dest: dest.clone() },
            done: build_done(prefixed("Item copied to: ", dest.as_str())),
            fail_prefix: String::from_str("Failed to copy: "),
        },
    }
}

/// Wraps an action behind the overwrite prompt when the destination exists.
fn build_guarded(action: Action, dest_exists: bool, shown: &String, skip_body: String) -> (p: Plan)
    ensures
        p@ == guarded(action@, dest_exists, shown@, skip_body@),
{
    if dest_exists {
        Plan::Ask {
            prompt: overwrite_prompt(shown.as_str()),
            then: action,
            skip: build_skip(skip_body),
        }
    } else {
        Plan::Act { action }
    }
}

/// Plans the one thing this process does for `req`, given its elevation
/// and the caller's observation of the filesystem.
pub fn plan(variant: Variant, req: &Request, elevated: bool, obs: Observation) -> (p: Plan)
    ensures
        p@ == plan_spec(variant, req@, elevated, obs),
{
    if variant == Variant::Xfetch && !elevated {
        return Plan::Reexec;
    }
    match req {
        Request::Create { path, directory } => {
            let exists = match obs {
                Observation::ForCreate { exists } => exists,
                Observation::ForTransfer { .. } => false,
            };
            let skip_body = if *directory {
                prefixed("Directory not overwritten: ", path.as_str())
            } else {
                prefixed("File not overwritten: ", path.as_str())
            };
            build_guarded(build_create_action(path, *directory), exists, path, skip_body)
        },
        Request::Import { source, destination } => {
            let dir = match destination {
                Some(d) => d.clone(),
                None => String::from_str("."),
            };
            proof {
                reveal_strlit(".");
                assert(dir@ =~= import_dir(opt_view(*destination)));
            }
            let kind = obs_source_kind(obs);
            build_guarded(
                build_import_action(source, &dir, kind),
                obs_destination_exists(obs),
                &dir,
                prefixed("Item not overwritten: ", dir.as_str()),
            )
        },
        Request::Copy { source, destination } => build_guarded(
            build_transfer_action(source, destination, obs_source_kind(obs)),
            obs_destination_exists(obs),
            destination,
            prefixed("Item not overwritten: ", destination.as_str()),
        ),
        Request::Paste { source, destination } => build_guarded(
            build_transfer_action(source, destination, obs_source_kind(obs)),
            obs_destination_exists(obs),
            destination,
            prefixed("Item not overwritten: ", destination.as_str()),
        ),
    }
}

/// Reads the source kind out of an observation.
fn obs_source_kind(obs: Observation) -> (k: PathKind)
    ensures
        k == obs_kind(obs),
{
    match obs {
        Observation::ForTransfer { source_kind, .. } => source_kind,
        Observation::ForCreate { .. } => PathKind::Missing,
    }
}

/// Reads the destination existence out of an observation.
fn obs_destination_exists(obs: Observation) -> (e: bool)
    ensures
        e == obs_dest_exists(obs),
{
    match obs {
        Observation::ForTransfer { dest_exists, .. } => dest_exists,
        Observation::ForCreate { exists } => exists,
    }
}

/// The mathematical value of a resolved prompt.
#[verifier::ext_equal]
pub enum ResolutionModel {
    Proceed { action: ActionModel },
    Skipped { report: ReportModel },
}

/// What an answer line made of a pending `Ask` plan.
#[derive(Debug)]
pub enum Resolution {
    /// The answer confirmed: take the action.
    Proceed { action: Action },
    /// The answer declined: emit the report and stop, without error.
    Skipped { report: Report },
}

impl View for Resolution {
    type V = ResolutionModel;

    open spec fn view(&self) -> ResolutionModel {
        match self {
            Resolution::Proceed { action } => ResolutionModel::Proceed { action: action@ },
            Resolution::Skipped { report } => ResolutionModel::Skipped { report: report@ },
        }
    }
}

/// How an answer line resolves a pending prompt.
pub open spec fn resolve_spec(
    line: Seq<char>,
    then: ActionModel,
    skip: ReportModel,
) -> ResolutionModel {
    if answer_confirms(line) {
        ResolutionModel::Proceed { action: then }
    } else {
        ResolutionModel::Skipped { report: skip }
    }
}

/// Resolves the answer line read for an `Ask` plan: `then` and `skip` are
/// the fields of that plan.
pub fn resolve_answer(line: &str, then: Action, skip: Report) -> (r: Resolution)
    ensures
        r@ == resolve_spec(line@, then@, skip@),
{
    match crate::confirm::decide_overwrite(line) {
        crate::confirm::Decision::Confirmed => Resolution::Proceed { action: then },
        crate::confirm::Decision::Declined => Resolution::Skipped { report: skip },
    }
}

} // verus!
