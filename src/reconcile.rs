//! Link reconciliation as a state machine: the caller performs each action on
//! the filesystem and reports what it observed, and `link_step` decides what
//! to do next. A model of the filesystem states the laws the machine obeys.
use vstd::prelude::*;
use crate::path::{paths_equal, same_path};

verus! {

/// What the destination path is, observed without following symlinks.
#[derive(Debug)]
pub enum DestNode {
    Absent,
    Symlink { target: String },
    File,
    Dir,
}

/// Why a mapping could not be reconciled.
#[derive(Clone, Copy, Debug, PartialEq, Eq, Structural)]
pub enum Failure {
    /// Moving the destination into the repository failed.
    Move,
    /// Removing the old destination failed.
    Remove,
    /// Creating the symbolic link failed.
    Symlink,
    /// Some files of a copy failed; `failed` counts them.
    Copy { failed: usize },
    /// The source of a copy could not be inspected or listed.
    SourceUnreadable,
    /// An observation arrived that does not answer the pending action.
    UnexpectedEvent,
}

/// The result of reconciling one mapping.
#[derive(Clone, Copy, Debug, PartialEq, Eq, Structural)]
pub enum Outcome {
    Skipped,
    Linked,
    Copied,
    Failed { reason: Failure },
}

/// The next filesystem action the caller must perform.
#[derive(Clone, Copy, Debug, PartialEq, Eq, Structural)]
pub enum LinkAction {
    /// Report whether the source and the destination exist.
    Probe,
    /// Rename the destination to the source path.
    MoveDestToSource,
    /// Report the destination's node without following symlinks.
    InspectDest,
    /// Remove the destination, a file or a symlink.
    RemoveFile,
    /// Remove the destination directory with everything below it.
    RemoveDir,
    /// Create a symlink at the destination pointing to the source.
    CreateSymlink,
    /// Reconciliation is over.
    Finish { outcome: Outcome },
}

/// What the caller observed when performing an action.
#[derive(Debug)]
pub enum LinkEvent {
    Probed { source_exists: bool, dest_exists: bool },
    Moved { ok: bool },
    Inspected { node: DestNode },
    Removed { ok: bool },
    SymlinkMade { ok: bool },
}

pub open spec fn finish(outcome: Outcome) -> LinkAction {
    LinkAction::Finish { outcome }
}

pub open spec fn failed(reason: Failure) -> LinkAction {
    LinkAction::Finish { outcome: Outcome::Failed { reason } }
}

/// The first action of a link reconciliation: nothing at all when the
/// destination resolved to the empty string.
pub open spec fn first_link_action(destination: Seq<char>) -> LinkAction {
    if destination.len() == 0 {
        finish(Outcome::Skipped)
    } else {
        LinkAction::Probe
    }
}

/// The decision made after `last` was performed and `event` observed;
/// `source_abs` is the absolute source path. A symlink whose target names
/// the same path as the source, compared by component, is already in place.
pub open spec fn next_link_action(last: LinkAction, event: LinkEvent, source_abs: Seq<char>) -> LinkAction {
    match last {
        LinkAction::Finish { outcome } => last,
        LinkAction::Probe => match event {
            LinkEvent::Probed { source_exists, dest_exists } => if !source_exists && !dest_exists {
                finish(Outcome::Skipped)
            } else if !source_exists {
                LinkAction::MoveDestToSource
            } else {
                LinkAction::InspectDest
            },
            _ => failed(Failure::UnexpectedEvent),
        },
        LinkAction::MoveDestToSource => match event {
            LinkEvent::Moved { ok } => if ok {
                LinkAction::InspectDest
            } else {
                failed(Failure::Move)
            },
            _ => failed(Failure::UnexpectedEvent),
        },
        LinkAction::InspectDest => match event {
            LinkEvent::Inspected { node } => match node {
                DestNode::Absent => LinkAction::CreateSymlink,
                DestNode::Symlink { target } => if paths_equal(target@, source_abs) {
                    finish(Outcome::Skipped)
                } else {
                    LinkAction::RemoveFile
                },
                DestNode::File => LinkAction::RemoveFile,
                DestNode::Dir => LinkAction::RemoveDir,
            },
            _ => failed(Failure::UnexpectedEvent),
        },
        LinkAction::RemoveFile | LinkAction::RemoveDir => match event {
            LinkEvent::Removed { ok } => if ok {
                LinkAction::CreateSymlink
            } else {
                failed(Failure::Remove)
            },
            _ => failed(Failure::UnexpectedEvent),
        },
        LinkAction::CreateSymlink => match event {
            LinkEvent::SymlinkMade { ok } => if ok {
                finish(Outcome::Linked)
            } else {
                failed(Failure::Symlink)
            },
            _ => failed(Failure::UnexpectedEvent),
        },
    }
}

/// Starts reconciling a mapping whose resolved destination is `destination`.
pub fn start_link(destination: &String) -> (r: LinkAction)
    ensures
        r == first_link_action(destination@),
{
    if destination.as_str().is_empty() {
        LinkAction::Finish { outcome: Outcome::Skipped }
    } else {
        LinkAction::Probe
    }
}

/// Decides the next action after `last` was performed and `event` observed.
pub fn link_step(last: &LinkAction, event: &LinkEvent, source_abs: &String) -> (r: LinkAction)
    ensures
        r == next_link_action(*last, *event, source_abs@),
{
    let bad = LinkAction::Finish { outcome: Outcome::Failed { reason: Failure::UnexpectedEvent } };
    match last {
        LinkAction::Finish { outcome } => LinkAction::Finish { outcome: *outcome },
        LinkAction::Probe => match event {
            LinkEvent::Probed { source_exists, dest_exists } => {
                if !*source_exists && !*dest_exists {
                    LinkAction::Finish { outcome: Outcome::Skipped }
                } else if !*source_exists {
                    LinkAction::MoveDestToSource
                } else {
                    LinkAction::InspectDest
                }
            },
            _ => bad,
        },
        LinkAction::MoveDestToSource => match event {
            LinkEvent::Moved { ok } => {
                if *ok {
                    LinkAction::InspectDest
                } else {
                    LinkAction::Finish { outcome: Outcome::Failed { reason: Failure::Move } }
                }
            },
            _ => bad,
        },
        LinkAction::InspectDest => match event {
            LinkEvent::Inspected { node } => match node {
                DestNode::Absent => LinkAction::CreateSymlink,
                DestNode::Symlink { target } => {
                    if same_path(target.as_str(), source_abs.as_str()) {
                        LinkAction::Finish { outcome: Outcome::Skipped }
                    } else {
                        LinkAction::RemoveFile
                    }
                },
                DestNode::File => LinkAction::RemoveFile,
                DestNode::Dir => LinkAction::RemoveDir,
            },
            _ => bad,
        },
        LinkAction::RemoveFile | LinkAction::RemoveDir => match event {
            LinkEvent::Removed { ok } => {
                if *ok {
                    LinkAction::CreateSymlink
                } else {
                    LinkAction::Finish { outcome: Outcome::Failed { reason: Failure::Remove } }
                }
            },
            _ => bad,
        },
        LinkAction::CreateSymlink => match event {
            LinkEvent::SymlinkMade { ok } => {
                if *ok {
                    LinkAction::Finish { outcome: Outcome::Linked }
                } else {
                    LinkAction::Finish { outcome: Outcome::Failed { reason: Failure::Symlink } }
                }
            },
            _ => bad,
        },
    }
}

/// A filesystem object in the model; `id` stands for its contents.
pub enum Obj {
    File { id: int },
    Dir { id: int },
    Link { target: String },
}

/// The model of the two paths one mapping touches: the absolute source path
/// and the destination. `others_exist` tells whether a symlink target other
/// than the source resolves to something. Every action succeeds in the model.
pub struct LinkWorld {
    pub source: Option<Obj>,
    pub dest: Option<Obj>,
    pub others_exist: bool,
}

/// Whether the destination exists, following a symlink.
pub open spec fn dest_exists(w: LinkWorld, source_abs: Seq<char>) -> bool {
    match w.dest {
        None => false,
        Some(Obj::Link { target }) => if paths_equal(target@, source_abs) {
            w.source is Some
        } else {
            w.others_exist
        },
        Some(_) => true,
    }
}

/// Whether the object is a symlink whose target names the same path as
/// `source_abs`.
pub open spec fn links_to(o: Option<Obj>, source_abs: Seq<char>) -> bool {
    o matches Some(Obj::Link { target }) && paths_equal(target@, source_abs)
}

/// The node an inspection of `o` reports.
pub open spec fn node_of(o: Option<Obj>) -> DestNode {
    match o {
        None => DestNode::Absent,
        Some(Obj::File { id }) => DestNode::File,
        Some(Obj::Dir { id }) => DestNode::Dir,
        Some(Obj::Link { target }) => DestNode::Symlink { target },
    }
}

/// What performing `a` in `w` lets the caller observe.
pub open spec fn world_event(w: LinkWorld, a: LinkAction, source_abs: String) -> LinkEvent {
    match a {
        LinkAction::Probe => LinkEvent::Probed {
            source_exists: w.source is Some,
            dest_exists: dest_exists(w, source_abs@),
        },
        LinkAction::MoveDestToSource => LinkEvent::Moved { ok: true },
        LinkAction::InspectDest => LinkEvent::Inspected { node: node_of(w.dest) },
        LinkAction::RemoveFile | LinkAction::RemoveDir => LinkEvent::Removed { ok: true },
        _ => LinkEvent::SymlinkMade { ok: true },
    }
}

/// The model after performing `a` in `w`.
pub open spec fn world_after(w: LinkWorld, a: LinkAction, source_abs: String) -> LinkWorld {
    match a {
        LinkAction::MoveDestToSource => LinkWorld { source: w.dest, dest: None, ..w },
        LinkAction::RemoveFile | LinkAction::RemoveDir => LinkWorld { dest: None, ..w },
        LinkAction::CreateSymlink => LinkWorld { dest: Some(Obj::Link { target: source_abs }), ..w },
        _ => w,
    }
}

/// Drives the machine from `a` against the model for at most `fuel` steps.
pub open spec fn run_link(w: LinkWorld, a: LinkAction, source_abs: String, fuel: nat) -> (LinkWorld, LinkAction)
    decreases fuel,
{
    if fuel == 0 || a is Finish {
        (w, a)
    } else {
        run_link(
            world_after(w, a, source_abs),
            next_link_action(a, world_event(w, a, source_abs), source_abs@),
            source_abs,
            (fuel - 1) as nat,
        )
    }
}

/// One whole link reconciliation against the model.
pub open spec fn reconcile_link(w: LinkWorld, source_abs: String) -> (LinkWorld, LinkAction) {
    run_link(w, LinkAction::Probe, source_abs, 5)
}

/// Reconciling twice in a row links on the first run, or finds the link
/// already in place, and the second run skips without changing anything;
/// after both runs the destination is a symlink to the source.
pub proof fn lemma_link_idempotent(w: LinkWorld, source_abs: String)
    requires
        w.source is Some || dest_exists(w, source_abs@),
    ensures
        ({
            let (w1, a1) = reconcile_link(w, source_abs);
            let (w2, a2) = reconcile_link(w1, source_abs);
            &&& a1 == finish(if links_to(w.dest, source_abs@) { Outcome::Skipped } else { Outcome::Linked })
            &&& links_to(w1.dest, source_abs@)
            &&& a2 == finish(Outcome::Skipped)
            &&& w2 == w1
        }),
{
    reveal_with_fuel(run_link, 6);
}

/// When only the destination exists and it is a directory, reconciliation
/// moves that directory to the source path and links the destination to it.
pub proof fn lemma_first_run_preserves(w: LinkWorld, source_abs: String, id: int)
    requires
        w.source is None,
        w.dest == Some(Obj::Dir { id }),
    ensures
        ({
            let (w1, a1) = reconcile_link(w, source_abs);
            &&& a1 == finish(Outcome::Linked)
            &&& w1.source == Some(Obj::Dir { id })
            &&& links_to(w1.dest, source_abs@)
        }),
{
    reveal_with_fuel(run_link, 6);
}

/// A destination that is a regular file is removed as a file, one that is a
/// directory is removed with its whole subtree, and either is replaced by a
/// symlink to the source, which stays as it was.
pub proof fn lemma_overwrite_replaces(w: LinkWorld, source_abs: String)
    requires
        w.source is Some,
        w.dest matches Some(o) && (o is File || o is Dir),
    ensures
        next_link_action(LinkAction::InspectDest, world_event(w, LinkAction::InspectDest, source_abs), source_abs@)
            == if w.dest->0 is File { LinkAction::RemoveFile } else { LinkAction::RemoveDir },
        ({
            let (w1, a1) = reconcile_link(w, source_abs);
            &&& a1 == finish(Outcome::Linked)
            &&& w1.source == w.source
            &&& links_to(w1.dest, source_abs@)
        }),
{
    reveal_with_fuel(run_link, 6);
}

} // verus!
