//! The guarantees of the planning logic, stated whole.
//!
//! Each proof function here states one rule of the tool over every input it
//! covers: what an unelevated process may do, when a prompt is owed, what
//! an answer line decides, and which copy operation each surface plans for
//! a directory.

use vstd::prelude::*;
use crate::confirm::answer_confirms;
use crate::plan::ActionModel;
use crate::plan::Observation;
use crate::plan::OpModel;
use crate::plan::PathKind;
use crate::plan::PlanModel;
use crate::plan::ResolutionModel;
use crate::plan::create_action;
use crate::plan::import_dir;
use crate::plan::obs_dest_exists;
use crate::plan::plan_spec;
use crate::plan::resolve_spec;
use crate::report::Severity;
use crate::request::ReqModel;
use crate::request::Variant;

verus! {

/// On the `xfetch` surface an unelevated process re-executes and nothing
/// else: no request and no observation makes it touch the filesystem
/// itself.
pub proof fn law_unelevated_only_reexecs(req: ReqModel, obs: Observation)
    ensures
        (plan_spec(Variant::Xfetch, req, false, obs) == PlanModel::Reexec),
{
}

/// A destination that exists is never overwritten unprompted: whenever the
/// observation shows an existing destination, the plan of a process that
/// runs at all is to ask first.
pub proof fn law_existing_destination_is_prompted(
    variant: Variant,
    req: ReqModel,
    elevated: bool,
    obs: Observation,
)
    requires
        obs_dest_exists(obs),
        (req is Create <==> obs is ForCreate),
        variant == Variant::Xfetch ==> elevated,
    ensures
        plan_spec(variant, req, elevated, obs) is Ask,
{
}

/// A non-confirming answer — anything but trimmed `y` or `Y` — resolves a
/// pending prompt to a skip: no operation proceeds, and the report is the
/// plan's own warning titled `Skipped`.
pub proof fn law_declined_overwrite_skips(
    variant: Variant,
    req: ReqModel,
    elevated: bool,
    obs: Observation,
    line: Seq<char>,
)
    requires
        plan_spec(variant, req, elevated, obs) is Ask,
        !answer_confirms(line),
    ensures
        ({
            let p = plan_spec(variant, req, elevated, obs);
            resolve_spec(line, p->Ask_then, p->Ask_skip) == ResolutionModel::Skipped {
                report: p->Ask_skip,
            } && p->Ask_skip.severity == Severity::Warning && p->Ask_skip.title == "Skipped"@
        }),
{
}

/// A confirming answer resolves a pending prompt to exactly the action the
/// plan guards, and to nothing else.
pub proof fn law_confirmed_overwrite_proceeds(
    variant: Variant,
    req: ReqModel,
    elevated: bool,
    obs: Observation,
    line: Seq<char>,
)
    requires
        plan_spec(variant, req, elevated, obs) is Ask,
        answer_confirms(line),
    ensures
        ({
            let p = plan_spec(variant, req, elevated, obs);
            resolve_spec(line, p->Ask_then, p->Ask_skip) == ResolutionModel::Proceed {
                action: p->Ask_then,
            }
        }),
{
}

/// `create` on a path that does not exist acts at once, without a prompt,
/// and the operation it runs is the creation of that very path.
pub proof fn law_create_fresh_acts_at_once(
    variant: Variant,
    path: Seq<char>,
    directory: bool,
    elevated: bool,
)
    requires
        variant == Variant::Xfetch ==> elevated,
    ensures
        (plan_spec(
            variant,
            ReqModel::Create { path, directory },
            elevated,
            Observation::ForCreate { exists: false },
        ) == PlanModel::Act { action: create_action(path, directory) }),
{
}

/// `create` on a path that exists, once confirmed, proceeds to the same
/// creation — an existing file is truncated to empty by it; an existing
/// directory makes the creation fail instead, reported as an error.
pub proof fn law_create_existing_confirmed_overwrites(
    variant: Variant,
    path: Seq<char>,
    directory: bool,
    elevated: bool,
    line: Seq<char>,
)
    requires
        variant == Variant::Xfetch ==> elevated,
        answer_confirms(line),
    ensures
        ({
            let p = plan_spec(
                variant,
                ReqModel::Create { path, directory },
                elevated,
                Observation::ForCreate { exists: true },
            );
            p is Ask && resolve_spec(line, p->Ask_then, p->Ask_skip)
                == ResolutionModel::Proceed { action: create_action(path, directory) }
        }),
{
}

/// `import` of a directory plans the recursive copy of the full subtree
/// into the destination directory.
pub proof fn law_import_directory_copies_recursively(
    source: Seq<char>,
    destination: Option<Seq<char>>,
    dest_exists: bool,
)
    ensures
        ({
            let p = plan_spec(
                Variant::Xfetch,
                ReqModel::Import { source, destination },
                true,
                Observation::ForTransfer { source_kind: PathKind::Dir, dest_exists },
            );
            let a = if dest_exists {
                p->Ask_then
            } else {
                p->Act_action
            };
            a matches ActionModel::Perform { op, .. } && op == OpModel::CopyTree {
                source,
                dest: import_dir(destination),
            }
        }),
{
}

/// `copy` and `paste` plan a single-entry copy even for a directory: the
/// operation does not descend into the directory's contents, unlike the
/// recursive `import`.
pub proof fn law_transfer_directory_copies_shallow(
    source: Seq<char>,
    destination: Seq<char>,
    dest_exists: bool,
    paste: bool,
)
    ensures
        ({
            let req = if paste {
                ReqModel::Paste { source, destination }
            } else {
                ReqModel::Copy { source, destination }
            };
            let p = plan_spec(
                Variant::Cortex,
                req,
                false,
                Observation::ForTransfer { source_kind: PathKind::Dir, dest_exists },
            );
            let a = if dest_exists {
                p->Ask_then
            } else {
                p->Act_action
            };
            a matches ActionModel::Perform { op, .. } && op == OpModel::CopyEntry {
                source,
                dest: destination,
            }
        }),
{
}

} // verus!
