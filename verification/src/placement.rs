//! Placement: where a dated file belongs, and whether it may be moved there.
//!
//! A file goes to the directory that the template gives to its date, below
//! its own source root, and keeps its name. The library works out the
//! destination and decides; the caller looks whether something is already
//! there and carries out the move. Nothing is ever moved onto a path at
//! which something exists.

use crate::paths::file_name;
use crate::paths::file_name_of;
use crate::paths::join;
use crate::paths::joined;
use crate::template::relative_directory;
use crate::template::DateFormatTemplate;
use crate::timestamp::CivilTime;
use crate::timestamp::Timestamp;
use vstd::prelude::*;

verus! {

/// Why a file was left where it is.
#[derive(Clone, Copy, Debug, PartialEq, Eq, Structural)]
pub enum SkipReason {
    /// No resolver found a plausible date.
    UnresolvableDate,
    /// The path of the file does not end in a file name.
    NoFileName,
    /// The template gives no directory below the root for the date.
    UnusableTemplate,
    /// Something else already exists at the destination.
    DestinationExists,
    /// The file system refused to create the directory or to move the file.
    FilesystemFault,
}

/// What became of one file.
#[derive(Debug, PartialEq, Eq)]
pub enum PlacementDecision {
    /// The file goes from one path to another.
    Moved { from: String, to: String },
    /// The file already is where it belongs.
    AlreadyInPlace { path: String },
    /// The file stays where it is.
    Skipped { reason: SkipReason },
}

/// A decision, with its paths as text.
pub enum Decision {
    Moved { from: Seq<char>, to: Seq<char> },
    AlreadyInPlace { path: Seq<char> },
    Skipped { reason: SkipReason },
}

impl View for PlacementDecision {
    type V = Decision;

    open spec fn view(&self) -> Decision {
        match self {
            PlacementDecision::Moved { from, to } => Decision::Moved { from: from@, to: to@ },
            PlacementDecision::AlreadyInPlace { path } => Decision::AlreadyInPlace { path: path@ },
            PlacementDecision::Skipped { reason } => Decision::Skipped { reason: *reason },
        }
    }
}

/// Where `file` belongs below `root` for `date` under `pattern`: the root,
/// then the directory that the pattern gives to the date, then the file's own
/// name. The error says why there is no such place.
pub open spec fn destination_of(
    file: Seq<char>,
    root: Seq<char>,
    date: CivilTime,
    pattern: Seq<char>,
) -> Result<Seq<char>, SkipReason> {
    match relative_directory(date, pattern) {
        None => Err(SkipReason::UnusableTemplate),
        Some(directory) => match file_name_of(file) {
            None => Err(SkipReason::NoFileName),
            Some(name) => Ok(joined(joined(root, directory), name)),
        },
    }
}

/// Where `file` belongs below `source_root` for `date` under `template`.
pub fn destination(
    file: &str,
    source_root: &str,
    date: &Timestamp,
    template: &DateFormatTemplate,
) -> (place: Result<String, SkipReason>)
    ensures
        destination_of(file@, source_root@, date@, template@) == match place {
            Ok(path) => Ok(path@),
            Err(reason) => Err(reason),
        },
{
    let directory = match template.apply(date) {
        Some(directory) => directory,
        None => {
            return Err(SkipReason::UnusableTemplate);
        },
    };
    let name = match file_name(file) {
        Some(name) => name,
        None => {
            return Err(SkipReason::NoFileName);
        },
    };
    let below_root = join(source_root, directory.as_str());
    Ok(join(below_root.as_str(), name.as_str()))
}

/// What is known of a file before anyone has looked at its destination.
#[derive(Debug, PartialEq, Eq)]
pub enum Plan {
    /// The decision is made; there is nothing to look at.
    Settled { decision: PlacementDecision },
    /// The file belongs at `destination`, which is not where it is: the
    /// caller must say whether something exists there.
    Probe { destination: String },
}

/// A plan, with its paths as text.
pub enum PlanView {
    Settled { decision: Decision },
    Probe { destination: Seq<char> },
}

impl View for Plan {
    type V = PlanView;

    open spec fn view(&self) -> PlanView {
        match self {
            Plan::Settled { decision } => PlanView::Settled { decision: decision@ },
            Plan::Probe { destination } => PlanView::Probe { destination: destination@ },
        }
    }
}

/// A move that the caller must carry out: create the directories that `to`
/// lies in, as far as they are missing, then rename `from` to `to`.
#[derive(Debug, PartialEq, Eq)]
pub struct MoveOrder {
    pub from: String,
    pub to: String,
}

/// A decision and, where the file must really be moved, the order to do so.
#[derive(Debug, PartialEq, Eq)]
pub struct Placement {
    pub decision: PlacementDecision,
    pub order: Option<MoveOrder>,
}

/// The plan for `file`: skipped without a date or without a destination, in
/// place where the destination is the file's own path, and otherwise a
/// destination to look at.
pub open spec fn plan_for(
    file: Seq<char>,
    root: Seq<char>,
    date: Option<CivilTime>,
    pattern: Seq<char>,
) -> PlanView {
    match date {
        None => PlanView::Settled {
            decision: Decision::Skipped { reason: SkipReason::UnresolvableDate },
        },
        Some(resolved) => match destination_of(file, root, resolved, pattern) {
            Err(reason) => PlanView::Settled { decision: Decision::Skipped { reason } },
            Ok(destination) => if destination == file {
                PlanView::Settled { decision: Decision::AlreadyInPlace { path: file } }
            } else {
                PlanView::Probe { destination }
            },
        },
    }
}

/// The decision for a file that belongs at `destination`, where `occupied`
/// says whether something exists there. A dry run decides as a real run does.
pub open spec fn decision_for(file: Seq<char>, destination: Seq<char>, occupied: bool) -> Decision {
    if destination == file {
        Decision::AlreadyInPlace { path: file }
    } else if occupied {
        Decision::Skipped { reason: SkipReason::DestinationExists }
    } else {
        Decision::Moved { from: file, to: destination }
    }
}

/// Whether the file must really be moved: it is not in place, nothing is in
/// its way, and the run is not a dry one.
pub open spec fn must_move(
    file: Seq<char>,
    destination: Seq<char>,
    occupied: bool,
    dry_run: bool,
) -> bool {
    destination != file && !occupied && !dry_run
}

/// Whether two texts are the same.
fn same_text(a: &str, b: &str) -> (same: bool)
    ensures
        same == (a@ == b@),
{
    let left = a.to_owned();
    let right = b.to_owned();
    left == right
}

/// Plans the placement of `file`, found below `source_root`, for the date
/// that the resolvers gave it, if they gave it one.
pub fn process_file(
    file: &str,
    source_root: &str,
    date: Option<Timestamp>,
    template: &DateFormatTemplate,
) -> (plan: Plan)
    ensures
        plan@ == plan_for(
            file@,
            source_root@,
            match date {
                Some(resolved) => Some(resolved@),
                None => None,
            },
            template@,
        ),
{
    let resolved = match date {
        Some(resolved) => resolved,
        None => {
            return Plan::Settled {
                decision: PlacementDecision::Skipped { reason: SkipReason::UnresolvableDate },
            };
        },
    };
    match destination(file, source_root, &resolved, template) {
        Err(reason) => Plan::Settled { decision: PlacementDecision::Skipped { reason } },
        Ok(place) => {
            if same_text(place.as_str(), file) {
                Plan::Settled { decision: PlacementDecision::AlreadyInPlace { path: place } }
            } else {
                Plan::Probe { destination: place }
            }
        },
    }
}

/// Decides what becomes of `file`, which belongs at `destination`.
///
/// `destination_occupied` is what the caller found there. The order is given
/// only where the file must really be moved; a dry run gives the decision of
/// a real run and no order.
pub fn place(file: &str, destination: &str, destination_occupied: bool, dry_run: bool) -> (placement:
    Placement)
    ensures
        placement.decision@ == decision_for(file@, destination@, destination_occupied),
        match placement.order {
            Some(order) => must_move(file@, destination@, destination_occupied, dry_run)
                && order.from@ == file@ && order.to@ == destination@,
            None => !must_move(file@, destination@, destination_occupied, dry_run),
        },
{
    if same_text(destination, file) {
        return Placement {
            decision: PlacementDecision::AlreadyInPlace { path: file.to_owned() },
            order: None,
        };
    }
    if destination_occupied {
        return Placement {
            decision: PlacementDecision::Skipped { reason: SkipReason::DestinationExists },
            order: None,
        };
    }
    let decision = PlacementDecision::Moved { from: file.to_owned(), to: destination.to_owned() };
    if dry_run {
        return Placement { decision, order: None };
    }
    Placement {
        decision,
        order: Some(MoveOrder { from: file.to_owned(), to: destination.to_owned() }),
    }
}

/// The decision once the caller has tried to carry out `order`: moved where
/// the file system did it, and skipped for a fault where it did not.
pub fn conclude(order: MoveOrder, succeeded: bool) -> (decision: PlacementDecision)
    ensures
        decision@ == if succeeded {
            Decision::Moved { from: order.from@, to: order.to@ }
        } else {
            Decision::Skipped { reason: SkipReason::FilesystemFault }
        },
{
    if succeeded {
        PlacementDecision::Moved { from: order.from, to: order.to }
    } else {
        PlacementDecision::Skipped { reason: SkipReason::FilesystemFault }
    }
}

/// The outcome of placing one file: the decision, and the paths at which
/// something exists afterwards.
pub struct Run {
    pub decision: Decision,
    pub tree: Set<Seq<char>>,
}

/// Placing `file` against `tree`, the set of paths at which something exists,
/// where every move that is ordered succeeds: the plan, then a look at the
/// destination, then the move if one is due.
pub open spec fn run(
    tree: Set<Seq<char>>,
    file: Seq<char>,
    root: Seq<char>,
    date: Option<CivilTime>,
    pattern: Seq<char>,
    dry_run: bool,
) -> Run {
    match plan_for(file, root, date, pattern) {
        PlanView::Settled { decision } => Run { decision, tree },
        PlanView::Probe { destination } => {
            let occupied = tree.contains(destination);
            Run {
                decision: decision_for(file, destination, occupied),
                tree: if must_move(file, destination, occupied, dry_run) {
                    tree.remove(file).insert(destination)
                } else {
                    tree
                },
            }
        },
    }
}

/// A file keeps its name when it is placed: the destination ends in the file
/// name that the file's own path ends in.
pub proof fn lemma_destination_keeps_file_name(
    file: Seq<char>,
    root: Seq<char>,
    date: CivilTime,
    pattern: Seq<char>,
)
    requires
        destination_of(file, root, date, pattern) is Ok,
    ensures
        file_name_of(destination_of(file, root, date, pattern)->Ok_0) == file_name_of(file),
{
    let directory = relative_directory(date, pattern)->Some_0;
    let name = file_name_of(file)->Some_0;
    crate::paths::lemma_join_keeps_file_name(joined(root, directory), name);
}

/// A file that is at its destination has that same path for its destination.
pub proof fn lemma_destination_is_fixed(
    file: Seq<char>,
    root: Seq<char>,
    date: CivilTime,
    pattern: Seq<char>,
)
    requires
        destination_of(file, root, date, pattern) is Ok,
    ensures
        destination_of(destination_of(file, root, date, pattern)->Ok_0, root, date, pattern)
            == destination_of(file, root, date, pattern),
{
    lemma_destination_keeps_file_name(file, root, date, pattern);
}

/// Placing a file a second time, with nothing changed in between, finds it in
/// place: after a real run that moved the file or found it in place, a run
/// on the path where the file now lies decides `AlreadyInPlace` and moves
/// nothing.
pub proof fn lemma_placement_is_idempotent(
    tree: Set<Seq<char>>,
    file: Seq<char>,
    root: Seq<char>,
    date: CivilTime,
    pattern: Seq<char>,
    dry_run_again: bool,
)
    requires
        ({
            let first = run(tree, file, root, Some(date), pattern, false);
            first.decision is Moved || first.decision is AlreadyInPlace
        }),
    ensures
        ({
            let first = run(tree, file, root, Some(date), pattern, false);
            let lies_at = match first.decision {
                Decision::Moved { from, to } => to,
                _ => file,
            };
            let second = run(first.tree, lies_at, root, Some(date), pattern, dry_run_again);
            &&& second.decision == Decision::AlreadyInPlace { path: lies_at }
            &&& second.tree == first.tree
        }),
{
    lemma_destination_is_fixed(file, root, date, pattern);
}

/// Nothing is overwritten: where something other than the file exists at the
/// destination, the file is skipped and the tree stays as it was.
pub proof fn lemma_never_overwrites(
    tree: Set<Seq<char>>,
    file: Seq<char>,
    root: Seq<char>,
    date: CivilTime,
    pattern: Seq<char>,
    dry_run: bool,
)
    requires
        destination_of(file, root, date, pattern) matches Ok(destination) && destination != file
            && tree.contains(destination),
    ensures
        run(tree, file, root, Some(date), pattern, dry_run) == (Run {
            decision: Decision::Skipped { reason: SkipReason::DestinationExists },
            tree,
        }),
{
}

/// A run never orders a move onto a path at which something exists, nor a
/// move of anything but the file itself.
pub proof fn lemma_moves_only_to_free_paths(
    tree: Set<Seq<char>>,
    file: Seq<char>,
    root: Seq<char>,
    date: Option<CivilTime>,
    pattern: Seq<char>,
    dry_run: bool,
)
    requires
        run(tree, file, root, date, pattern, dry_run).tree != tree,
    ensures
        !dry_run,
        date is Some,
        destination_of(file, root, date->Some_0, pattern) is Ok,
        ({
            let destination = destination_of(file, root, date->Some_0, pattern)->Ok_0;
            &&& !tree.contains(destination)
            &&& run(tree, file, root, date, pattern, dry_run) == (Run {
                decision: Decision::Moved { from: file, to: destination },
                tree: tree.remove(file).insert(destination),
            })
        }),
{
}

/// A dry run decides exactly as a real run does, and leaves the tree as it
/// was.
pub proof fn lemma_dry_run_decides_alike(
    tree: Set<Seq<char>>,
    file: Seq<char>,
    root: Seq<char>,
    date: Option<CivilTime>,
    pattern: Seq<char>,
)
    ensures
        run(tree, file, root, date, pattern, true).decision == run(
            tree,
            file,
            root,
            date,
            pattern,
            false,
        ).decision,
        run(tree, file, root, date, pattern, true).tree == tree,
{
}

} // verus!
