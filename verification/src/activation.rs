//! The activation engine: plans the filesystem steps that place a link to a
//! Dot's hub-stored source at the configured destination, and decides whether
//! the swap triggers an automatic reload. The surrounding binary observes the
//! destination's current state, asks for the plan, and performs the steps in
//! order.
//!
//! A ghost model of the destination path gives the plan its meaning: applying
//! a plan to any destination state leaves the destination linking to the
//! source, and doing so twice changes nothing and raises no error.

use vstd::prelude::*;

use crate::config::ConfigView;
use crate::config::DotConfig;
use crate::lifecycle::dot_reload;
use crate::lifecycle::reload_command;

verus! {

/// What currently sits at the destination path, as the filesystem reports
/// it: `IsFile` and `IsDir` follow links, so a link to a directory reports
/// `IsDir`.
#[derive(Debug, Clone, Copy, PartialEq, Eq, Structural)]
pub enum DestState {
    Absent,
    IsFile,
    IsDir,
}

/// One filesystem action of an activation, on the destination path.
#[derive(Debug, Clone, Copy, PartialEq, Eq, Structural)]
pub enum ActivationStep {
    /// Create the destination's parent directory, recursively.
    CreateParentDirs,
    /// Remove the regular file (or link to a file) at the destination.
    RemoveFile,
    /// Remove the directory at the destination with all its contents, or the
    /// link at the destination when the destination is a link to a directory.
    RemoveDirAll,
    /// Create a symbolic link at the destination pointing at the source.
    CreateLink,
}

/// The outcome of planning one activation: filesystem steps to perform in
/// order, and, when the reload-on-set policy applies, the synchronous
/// command to run once the link is in place.
#[derive(Debug, PartialEq, Eq)]
pub struct ActivationPlan {
    pub steps: Vec<ActivationStep>,
    pub reload: Option<String>,
}

/// The steps that replace whatever is at the destination with a link to the
/// source: ensure the parent directory exists (only needed when nothing sits
/// at the destination yet), remove a regular file or a directory found
/// there (nothing is removed when the destination is absent), then link.
pub open spec fn activation_steps(dest: DestState, dest_parent_exists: bool) -> Seq<
    ActivationStep,
> {
    let ensure_parent: Seq<ActivationStep> = if dest is Absent && !dest_parent_exists {
        seq![ActivationStep::CreateParentDirs]
    } else {
        Seq::empty()
    };
    let removal: Seq<ActivationStep> = match dest {
        DestState::Absent => Seq::empty(),
        DestState::IsFile => seq![ActivationStep::RemoveFile],
        DestState::IsDir => seq![ActivationStep::RemoveDirAll],
    };
    ensure_parent + removal + seq![ActivationStep::CreateLink]
}

/// The reload-on-set policy: after a successful link swap, reload runs
/// automatically when a reload command is configured or derivable (both
/// `start` and `kill` present), unless `reload_on_set` is explicitly false.
/// Unset and explicit true both mean "do reload".
pub open spec fn reload_on_set_applies(c: ConfigView) -> bool {
    (c.reload is Some || (c.start is Some && c.kill is Some)) && c.reload_on_set != Some(false)
}

/// Whether activating under this Configuration triggers the automatic
/// reload.
pub fn should_reload_on_set(config: &DotConfig) -> (r: bool)
    ensures
        r == reload_on_set_applies(config@),
{
    let derivable = config.reload.is_some() || (config.start.is_some() && config.kill.is_some());
    let opted_out = match config.reload_on_set {
        Some(false) => true,
        _ => false,
    };
    derivable && !opted_out
}

/// Plan the activation of a Dot: given the destination's current state and
/// whether its parent directory exists, produce the ordered filesystem steps
/// and, per the reload-on-set policy, the reload command to run afterwards.
pub fn dot_set(config: &DotConfig, dest: DestState, dest_parent_exists: bool) -> (plan:
    ActivationPlan)
    ensures
        plan.steps@ == activation_steps(dest, dest_parent_exists),
        match plan.reload {
            Some(cmd) => reload_on_set_applies(config@) && reload_command(config@) == Some(cmd@),
            None => !reload_on_set_applies(config@),
        },
{
    let mut steps: Vec<ActivationStep> = Vec::new();
    match dest {
        DestState::Absent => {
            if !dest_parent_exists {
                steps.push(ActivationStep::CreateParentDirs);
            }
        },
        DestState::IsFile => {
            steps.push(ActivationStep::RemoveFile);
        },
        DestState::IsDir => {
            steps.push(ActivationStep::RemoveDirAll);
        },
    }
    steps.push(ActivationStep::CreateLink);
    proof {
        assert(steps@ =~= activation_steps(dest, dest_parent_exists));
    }
    let reload = if should_reload_on_set(config) {
        match dot_reload(config) {
            Ok(cmd) => Some(cmd),
            Err(_) => {
                proof {
                    assert(false);
                }
                None
            },
        }
    } else {
        None
    };
    ActivationPlan { steps, reload }
}

/// Law: activation with `reload_on_set` explicitly false never triggers the
/// automatic reload, even with commands configured; with `reload_on_set`
/// unset or explicitly true it triggers whenever a reload command is
/// configured or derivable.
pub proof fn lemma_reload_on_set_policy(c: ConfigView)
    ensures
        c.reload_on_set == Some(false) ==> !reload_on_set_applies(c),
        (c.reload_on_set is None || c.reload_on_set == Some(true)) ==> reload_on_set_applies(c)
            == (c.reload is Some || (c.start is Some && c.kill is Some)),
{
}

// ---------------------------------------------------------------------------
// Ghost model of the destination path.
// ---------------------------------------------------------------------------
/// What truly occupies the destination path: nothing, a regular file, a
/// directory with named entries, or a link to a source path.
pub ghost enum DestNode {
    Absent,
    RegularFile,
    Directory { entries: Seq<Seq<char>> },
    LinkTo { source: Seq<char> },
}

/// How the filesystem reports a destination node: `is_file` and `is_dir`
/// follow links, so a link is reported by its target's kind.
pub open spec fn observed(n: DestNode, source_is_dir: bool) -> DestState {
    match n {
        DestNode::Absent => DestState::Absent,
        DestNode::RegularFile => DestState::IsFile,
        DestNode::Directory { .. } => DestState::IsDir,
        DestNode::LinkTo { .. } => if source_is_dir {
            DestState::IsDir
        } else {
            DestState::IsFile
        },
    }
}

/// The effect of one step on the destination node; `None` is a failing step
/// (removing what is not there, linking over something). Removal of a file
/// or of a directory removes a link found at the destination itself, never
/// the link's target.
pub open spec fn apply_step(
    n: DestNode,
    step: ActivationStep,
    source: Seq<char>,
    source_is_dir: bool,
) -> Option<DestNode> {
    match step {
        ActivationStep::CreateParentDirs => Some(n),
        ActivationStep::RemoveFile => if observed(n, source_is_dir) is IsFile {
            Some(DestNode::Absent)
        } else {
            None
        },
        ActivationStep::RemoveDirAll => if observed(n, source_is_dir) is IsDir {
            Some(DestNode::Absent)
        } else {
            None
        },
        ActivationStep::CreateLink => if n is Absent {
            Some(DestNode::LinkTo { source })
        } else {
            None
        },
    }
}

/// The effect of a whole plan, step by step; `None` as soon as a step fails.
pub open spec fn apply_steps(
    n: DestNode,
    steps: Seq<ActivationStep>,
    source: Seq<char>,
    source_is_dir: bool,
) -> Option<DestNode>
    decreases steps.len(),
{
    if steps.len() == 0 {
        Some(n)
    } else {
        match apply_step(n, steps[0], source, source_is_dir) {
            Some(n2) => apply_steps(n2, steps.skip(1), source, source_is_dir),
            None => None,
        }
    }
}

/// Law: from any destination state, the planned activation succeeds at every
/// step and leaves the destination linking to the source.
pub proof fn lemma_activation_links_destination(
    n: DestNode,
    source: Seq<char>,
    source_is_dir: bool,
    dest_parent_exists: bool,
)
    ensures
        apply_steps(
            n,
            activation_steps(observed(n, source_is_dir), dest_parent_exists),
            source,
            source_is_dir,
        ) == Some(DestNode::LinkTo { source }),
{
    let steps = activation_steps(observed(n, source_is_dir), dest_parent_exists);
    lemma_link_from_absent(source, source_is_dir);
    match observed(n, source_is_dir) {
        DestState::Absent => {
            assert(n is Absent);
            if !dest_parent_exists {
                assert(steps =~= seq![ActivationStep::CreateParentDirs, ActivationStep::CreateLink]);
                assert(steps.skip(1) =~= seq![ActivationStep::CreateLink]);
                assert(apply_steps(n, steps, source, source_is_dir) == apply_steps(
                    n,
                    steps.skip(1),
                    source,
                    source_is_dir,
                ));
            } else {
                assert(steps =~= seq![ActivationStep::CreateLink]);
            }
        },
        DestState::IsFile => {
            assert(steps =~= seq![ActivationStep::RemoveFile, ActivationStep::CreateLink]);
            assert(steps.skip(1) =~= seq![ActivationStep::CreateLink]);
            assert(apply_steps(n, steps, source, source_is_dir) == apply_steps(
                DestNode::Absent,
                steps.skip(1),
                source,
                source_is_dir,
            ));
        },
        DestState::IsDir => {
            assert(steps =~= seq![ActivationStep::RemoveDirAll, ActivationStep::CreateLink]);
            assert(steps.skip(1) =~= seq![ActivationStep::CreateLink]);
            assert(apply_steps(n, steps, source, source_is_dir) == apply_steps(
                DestNode::Absent,
                steps.skip(1),
                source,
                source_is_dir,
            ));
        },
    }
}

/// Creating the link at an absent destination is the last planned step, and
/// it yields the link.
proof fn lemma_link_from_absent(source: Seq<char>, source_is_dir: bool)
    ensures
        apply_steps(DestNode::Absent, seq![ActivationStep::CreateLink], source, source_is_dir)
            == Some(DestNode::LinkTo { source }),
{
    let one = seq![ActivationStep::CreateLink];
    assert(one.skip(1) =~= Seq::<ActivationStep>::empty());
    assert(apply_steps(DestNode::Absent, one, source, source_is_dir) == apply_steps(
        DestNode::LinkTo { source },
        one.skip(1),
        source,
        source_is_dir,
    ));
}

/// Law: activation is idempotent. A second activation of the same source and
/// destination starts from the link the first one left, fails at no step,
/// and leaves the destination linking to the same source.
pub proof fn lemma_activation_idempotent(
    n: DestNode,
    source: Seq<char>,
    source_is_dir: bool,
    first_parent_exists: bool,
    second_parent_exists: bool,
)
    ensures
        ({
            let after_first = apply_steps(
                n,
                activation_steps(observed(n, source_is_dir), first_parent_exists),
                source,
                source_is_dir,
            );
            &&& after_first == Some(DestNode::LinkTo { source })
            &&& apply_steps(
                after_first.unwrap(),
                activation_steps(
                    observed(after_first.unwrap(), source_is_dir),
                    second_parent_exists,
                ),
                source,
                source_is_dir,
            ) == Some(DestNode::LinkTo { source })
        }),
{
    lemma_activation_links_destination(n, source, source_is_dir, first_parent_exists);
    lemma_activation_links_destination(
        DestNode::LinkTo { source },
        source,
        source_is_dir,
        second_parent_exists,
    );
}

/// Law: a destination currently a directory is removed, with all its
/// entries, before the link is created — the plan is exactly removal then
/// link — and afterwards the destination resolves to the source.
pub proof fn lemma_directory_destination_cleared(
    entries: Seq<Seq<char>>,
    source: Seq<char>,
    source_is_dir: bool,
    dest_parent_exists: bool,
)
    ensures
        activation_steps(DestState::IsDir, dest_parent_exists) == seq![
            ActivationStep::RemoveDirAll,
            ActivationStep::CreateLink,
        ],
        apply_steps(
            DestNode::Directory { entries },
            activation_steps(DestState::IsDir, dest_parent_exists),
            source,
            source_is_dir,
        ) == Some(DestNode::LinkTo { source }),
{
    assert(activation_steps(DestState::IsDir, dest_parent_exists) =~= seq![
        ActivationStep::RemoveDirAll,
        ActivationStep::CreateLink,
    ]);
    lemma_activation_links_destination(
        DestNode::Directory { entries },
        source,
        source_is_dir,
        dest_parent_exists,
    );
}

} // verus!
