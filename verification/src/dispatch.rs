use vstd::pervasive::unreached;
use vstd::prelude::*;
use vstd::string::*;
use crate::app::{lines_of, spec_listing, spec_plan, App, Move, Task};
use crate::confirm::spec_confirmed;
use crate::database::{has_name, unique_names, FileEntryDB, Row};
use crate::paths::{resolve, spec_resolve};
use crate::rrm_error::RRMError;
use crate::setting::Mode;
use crate::trash::{
    move_result, names_of, removals_of, spec_removals, MoveOutcome, PathKind, Removal,
    RemovalKind, Transfer, TrashChild,
};

verus! {

/// What is shown before the answer to a request to empty the trash is read.
pub const PROMPT: &'static str =
    "Do you really want to clear the trash bin? 'y|n' (Cannot undo this)";

/// What is shown once emptying the trash was confirmed.
pub const WILL_CLEAR: &'static str = "Will clear trash bin";

/// What is shown once emptying the trash was declined.
pub const WILL_NOT_CLEAR: &'static str = "Will not clear trash bin";

/// Where the dispatcher stands: which answer it waits for.
#[derive(Debug, Clone, Copy, PartialEq, Eq, Structural)]
pub enum Phase {
    /// Nothing was asked for yet.
    Start,
    /// The answer to the request for confirmation.
    AwaitAnswer,
    /// The children of the trash directory, to delete them.
    AwaitChildren,
    /// The deletion of the child at this place of the plan.
    Removing(usize),
    /// The deletion of every record of the store.
    AwaitCleared,
    /// The names of the children of the trash directory, to list them.
    AwaitListing,
    /// The working directory.
    AwaitCwd,
    /// What the operand at this place refers to, and the names in the trash.
    AwaitProbe(usize),
    /// The move of the operand at this place.
    AwaitMove(usize),
    /// The writing of the record of the operand at this place.
    AwaitRecorded(usize),
    /// The work is over.
    Finished,
}

/// What the caller observed while it carried out the action before.
#[derive(Debug, Clone, PartialEq, Eq)]
pub enum Event {
    /// Nothing yet: the dispatcher was just made.
    Started,
    /// The line that was read in reply to the request for confirmation.
    Answer(String),
    /// The direct children of the trash directory.
    Children(Vec<TrashChild>),
    /// The names of the direct children of the trash directory.
    Names(Vec<String>),
    /// The working directory.
    Cwd(String),
    /// What the path refers to, and the names of the direct children of the
    /// trash directory.
    Probed { kind: PathKind, dir_files: Vec<String> },
    /// How the rename ended.
    Moved(MoveOutcome),
    /// The action was carried out.
    Done,
    /// The action could not be carried out.
    Failed,
}

/// What the caller has to do next.
#[derive(Debug, PartialEq, Eq)]
pub enum Action {
    /// Read one line from the user; answer with `Answer`.
    Confirm,
    /// Read the direct children of the trash directory; answer with
    /// `Children`.
    ListChildren,
    /// Read the names of the direct children of the trash directory; answer
    /// with `Names`.
    ListNames,
    /// Delete this child of the trash directory; answer with `Done`.
    Remove(Removal),
    /// Delete every record of the store; answer with `Done`.
    ClearStore,
    /// Find the working directory; answer with `Cwd`.
    WorkingDir,
    /// Find what this path refers to and read the names of the direct
    /// children of the trash directory; answer with `Probed`.
    Probe(String),
    /// Rename the entry into the trash directory; answer with `Moved`.
    Rename(Transfer),
    /// Write this record to the store; answer with `Done`.
    Record(FileEntryDB),
    /// Stop, with this result.
    Finish(Result<(), RRMError>),
}

/// One turn of the dispatcher: lines to show to the user, an error to report
/// in the log, and then the action to carry out.
#[derive(Debug, PartialEq, Eq)]
pub struct Turn {
    pub print: Vec<String>,
    pub report: Option<RRMError>,
    pub action: Action,
}

/// An action over character sequences.
pub enum ActionView {
    Confirm,
    ListChildren,
    ListNames,
    Remove((Seq<char>, RemovalKind)),
    ClearStore,
    WorkingDir,
    Probe(Seq<char>),
    Rename(Move),
    Record(Row),
    Finish(Result<(), RRMError>),
}

/// A turn over character sequences.
pub struct TurnView {
    pub print: Seq<Seq<char>>,
    pub report: Option<RRMError>,
    pub action: ActionView,
}

impl View for Action {
    type V = ActionView;

    open spec fn view(&self) -> ActionView {
        match self {
            Action::Confirm => ActionView::Confirm,
            Action::ListChildren => ActionView::ListChildren,
            Action::ListNames => ActionView::ListNames,
            Action::Remove(removal) => ActionView::Remove(removal@),
            Action::ClearStore => ActionView::ClearStore,
            Action::WorkingDir => ActionView::WorkingDir,
            Action::Probe(path) => ActionView::Probe(path@),
            Action::Rename(transfer) => ActionView::Rename(transfer@),
            Action::Record(entry) => ActionView::Record(entry@),
            Action::Finish(result) => ActionView::Finish(*result),
        }
    }
}

impl View for Turn {
    type V = TurnView;

    open spec fn view(&self) -> TurnView {
        TurnView { print: lines_of(self.print@), report: self.report, action: self.action@ }
    }
}

/// The state of the dispatcher: where it stands, what the command line asked
/// for, the index, and what it keeps between two turns.
pub struct State {
    pub phase: Phase,
    /// The operation that the flags select.
    pub mode: Mode,
    /// The operands, in the order given.
    pub files: Seq<Seq<char>>,
    pub trash_path: Seq<char>,
    /// The records of the index.
    pub index: Seq<Row>,
    /// The working directory, once it is known.
    pub cwd: Seq<char>,
    /// The deletions that empty the trash, once its children are known.
    pub plan: Seq<(Seq<char>, RemovalKind)>,
    /// The move that is under way.
    pub pending: Option<Move>,
    /// How the work ended, once it is over.
    pub outcome: Result<(), RRMError>,
}

/// What holds of every state that the dispatcher reaches: no two records
/// carry the same name, and what it waits for exists.
pub open spec fn spec_wf(s: State) -> bool {
    &&& unique_names(s.index)
    &&& match s.phase {
        Phase::AwaitAnswer => s.mode == Mode::Purge,
        Phase::Removing(i) => i < s.plan.len(),
        Phase::AwaitProbe(i) => i < s.files.len(),
        Phase::AwaitMove(i) => i < s.files.len() && s.pending is Some,
        Phase::AwaitRecorded(i) => i < s.files.len() && s.pending is Some && !has_name(
            s.index,
            s.pending->Some_0.2,
        ),
        _ => true,
    }
}

/// A turn that shows and reports nothing.
pub open spec fn quiet(action: ActionView) -> TurnView {
    TurnView { print: Seq::empty(), report: None, action }
}

/// The end of the work: the lines to show, and the result.
pub open spec fn spec_finish(s: State, print: Seq<Seq<char>>, result: Result<(), RRMError>) -> (
    State,
    TurnView,
) {
    (
        State { phase: Phase::Finished, pending: None, outcome: result, ..s },
        TurnView { print, report: None, action: ActionView::Finish(result) },
    )
}

/// Goes on with the operand at `next`, or ends the batch with success where
/// none is left. `report` is what went wrong with the operand before.
pub open spec fn spec_advance(s: State, next: int, report: Option<RRMError>) -> (State, TurnView) {
    if next < s.files.len() {
        (
            State { phase: Phase::AwaitProbe(next as usize), pending: None, ..s },
            TurnView {
                print: Seq::empty(),
                report,
                action: ActionView::Probe(spec_resolve(s.cwd, s.files[next])),
            },
        )
    } else {
        (
            State { phase: Phase::Finished, pending: None, outcome: Ok(()), ..s },
            TurnView { print: Seq::empty(), report, action: ActionView::Finish(Ok(())) },
        )
    }
}

/// The first turn: emptying the trash asks for confirmation, listing asks
/// for the names in the trash, trashing asks for the working directory.
pub open spec fn spec_start(s: State) -> (State, TurnView) {
    match s.mode {
        Mode::Purge => (
            State { phase: Phase::AwaitAnswer, ..s },
            TurnView { print: seq![PROMPT@], report: None, action: ActionView::Confirm },
        ),
        Mode::List => (State { phase: Phase::AwaitListing, ..s }, quiet(ActionView::ListNames)),
        Mode::Trash => if s.files.len() == 0 {
            spec_finish(s, Seq::empty(), Ok(()))
        } else {
            (State { phase: Phase::AwaitCwd, ..s }, quiet(ActionView::WorkingDir))
        },
    }
}

/// The turn after the children of the trash directory are known: the first
/// deletion, or the clearing of the store where the trash is empty.
pub open spec fn spec_begin_purge(s: State, children: Seq<TrashChild>) -> (State, TurnView) {
    let plan = spec_removals(s.trash_path, children);
    if plan.len() == 0 {
        (State { phase: Phase::AwaitCleared, plan, ..s }, quiet(ActionView::ClearStore))
    } else {
        (State { phase: Phase::Removing(0), plan, ..s }, quiet(ActionView::Remove(plan[0])))
    }
}

/// The turn after the move of operand `i` ended. A move that succeeded is
/// followed by the writing of its record, unless the name is recorded
/// already; a move that failed is reported, and the next operand is taken
/// up.
pub open spec fn spec_after_move(s: State, i: int, outcome: MoveOutcome) -> (State, TurnView) {
    match outcome {
        MoveOutcome::Moved => {
            let name = s.pending->Some_0.2;
            if has_name(s.index, name) {
                spec_advance(s, i + 1, Some(RRMError::Duplicate))
            } else {
                (
                    State { phase: Phase::AwaitRecorded(i as usize), ..s },
                    quiet(ActionView::Record((name, s.cwd))),
                )
            }
        },
        MoveOutcome::CrossDevice => spec_advance(s, i + 1, Some(RRMError::CrossDeviceMove)),
        MoveOutcome::Failed => spec_advance(s, i + 1, Some(RRMError::IO)),
    }
}

/// One step of the dispatcher: from the state and what the caller observed
/// to the next state and the next turn. An event that does not answer the
/// action before counts as the failure of that action. Once the work is
/// over, every further step gives its result again.
pub open spec fn spec_step(s: State, event: Event) -> (State, TurnView) {
    match s.phase {
        Phase::Start => spec_start(s),
        Phase::AwaitAnswer => match event {
            Event::Answer(answer) => if spec_confirmed(answer@) {
                (
                    State { phase: Phase::AwaitChildren, ..s },
                    TurnView {
                        print: seq![WILL_CLEAR@],
                        report: None,
                        action: ActionView::ListChildren,
                    },
                )
            } else {
                spec_finish(s, seq![WILL_NOT_CLEAR@], Ok(()))
            },
            _ => spec_finish(s, Seq::empty(), Err(RRMError::IO)),
        },
        Phase::AwaitChildren => match event {
            Event::Children(children) => spec_begin_purge(s, children@),
            _ => spec_finish(s, Seq::empty(), Err(RRMError::IO)),
        },
        Phase::Removing(i) => match event {
            Event::Done => if i + 1 < s.plan.len() {
                (
                    State { phase: Phase::Removing((i + 1) as usize), ..s },
                    quiet(ActionView::Remove(s.plan[i + 1])),
                )
            } else {
                (State { phase: Phase::AwaitCleared, ..s }, quiet(ActionView::ClearStore))
            },
            _ => spec_finish(s, Seq::empty(), Err(RRMError::IO)),
        },
        Phase::AwaitCleared => match event {
            Event::Done => spec_finish(State { index: Seq::empty(), ..s }, Seq::empty(), Ok(())),
            _ => spec_finish(s, Seq::empty(), Err(RRMError::IndexUnavailable)),
        },
        Phase::AwaitListing => match event {
            Event::Names(names) => spec_finish(s, spec_listing(s.index, names_of(names@)), Ok(())),
            _ => spec_finish(s, Seq::empty(), Err(RRMError::IO)),
        },
        Phase::AwaitCwd => match event {
            Event::Cwd(cwd) => spec_advance(State { cwd: cwd@, ..s }, 0, None),
            _ => spec_finish(s, Seq::empty(), Err(RRMError::IO)),
        },
        Phase::AwaitProbe(i) => match event {
            Event::Probed { kind, dir_files } => match spec_plan(
                s.trash_path,
                s.cwd,
                s.files[i as int],
                kind,
                names_of(dir_files@),
            ) {
                Ok(planned) => (
                    State { phase: Phase::AwaitMove(i), pending: Some(planned), ..s },
                    quiet(ActionView::Rename(planned)),
                ),
                Err(e) => spec_advance(s, i + 1, Some(e)),
            },
            _ => spec_advance(s, i + 1, Some(RRMError::IO)),
        },
        Phase::AwaitMove(i) => match event {
            Event::Moved(outcome) => spec_after_move(s, i as int, outcome),
            _ => spec_advance(s, i + 1, Some(RRMError::IO)),
        },
        Phase::AwaitRecorded(i) => match event {
            Event::Done => spec_advance(
                State { index: s.index.push((s.pending->Some_0.2, s.cwd)), ..s },
                i + 1,
                None,
            ),
            _ => spec_advance(s, i + 1, Some(RRMError::IndexUnavailable)),
        },
        Phase::Finished => spec_finish(s, Seq::empty(), s.outcome),
    }
}

/// Every step leads from a well-formed state to a well-formed state.
pub proof fn lemma_step_keeps_wf(s: State, event: Event)
    requires
        spec_wf(s),
    ensures
        spec_wf(spec_step(s, event).0),
{
    if s.phase is AwaitRecorded && event is Done {
        let row = (s.pending->Some_0.2, s.cwd);
        let grown = s.index.push(row);
        assert forall|a: int, b: int| 0 <= a < b < grown.len() implies (#[trigger] grown[a]).0 != (
        #[trigger] grown[b]).0 by {
            if b < s.index.len() {
                assert(s.index[a].0 != s.index[b].0);
            } else {
                assert(s.index[a].0 != row.0);
            }
        }
    }
    if s.phase is AwaitCleared && event is Done {
        assert(unique_names(Seq::<Row>::empty()));
    }
}

/// A request to empty the trash that is answered with anything but `y` or
/// `yes` ends the work with success: nothing is deleted, and the index stays
/// as it was.
pub proof fn lemma_declined_purge_changes_nothing(s: State, answer: String)
    requires
        s.phase == Phase::AwaitAnswer,
        !spec_confirmed(answer@),
    ensures
        spec_step(s, Event::Answer(answer)).0.index == s.index,
        spec_step(s, Event::Answer(answer)).0.phase == Phase::Finished,
        spec_step(s, Event::Answer(answer)).1.action == ActionView::Finish(Ok(())),
        spec_step(s, Event::Answer(answer)).1.report == None::<RRMError>,
{
}

/// The index follows the store: it changes only once the store has written
/// the record of a move or deleted its records, and then in the same way.
pub proof fn lemma_index_follows_store(s: State, event: Event)
    ensures
        ({
            let next = spec_step(s, event).0;
            ||| next.index == s.index
            ||| s.phase is AwaitRecorded && event is Done && next.index == s.index.push(
                (s.pending->Some_0.2, s.cwd),
            )
            ||| s.phase is AwaitCleared && event is Done && next.index == Seq::<Row>::empty()
        }),
{
}

/// Once the store has deleted its records, the index is empty and the work
/// ends with success.
pub proof fn lemma_purge_empties_index(s: State)
    requires
        s.phase == Phase::AwaitCleared,
    ensures
        spec_step(s, Event::Done).0.index == Seq::<Row>::empty(),
        spec_step(s, Event::Done).0.phase == Phase::Finished,
        spec_step(s, Event::Done).1.action == ActionView::Finish(Ok(())),
{
}

/// The store is cleared only after the trash directory is empty: either it
/// had no children, or the deletion of the last child of the plan succeeded.
/// A deletion that fails ends the work with an error before that.
pub proof fn lemma_disk_before_store(s: State, event: Event)
    requires
        spec_wf(s),
    ensures
        spec_step(s, event).1.action is ClearStore ==> {
            ||| s.phase is AwaitChildren && event is Children && event->Children_0.len() == 0
            ||| s.phase is Removing && event is Done && s.phase->Removing_0 + 1 == s.plan.len()
        },
        s.phase is Removing && !(event is Done) ==> spec_step(s, event).1.action
            == ActionView::Finish(Err(RRMError::IO)),
        s.phase is Removing && event is Done && s.phase->Removing_0 + 1 < s.plan.len()
            ==> spec_step(s, event).1.action == ActionView::Remove(
            s.plan[s.phase->Removing_0 + 1],
        ),
{
}

/// A record is written only for an entry whose move succeeded, under the
/// name that the entry got in the trash and with the working directory as
/// its origin.
pub proof fn lemma_move_before_record(s: State, event: Event)
    requires
        spec_wf(s),
        spec_step(s, event).1.action is Record,
    ensures
        s.phase is AwaitMove,
        event == Event::Moved(MoveOutcome::Moved),
        spec_step(s, event).1.action->Record_0 == (s.pending->Some_0.2, s.cwd),
{
}

/// An entry is renamed only as `spec_plan` decides for its operand: never
/// where the name is taken, which is reported as `NameCollision`.
pub proof fn lemma_rename_as_planned(s: State, kind: PathKind, dir_files: Vec<String>)
    requires
        spec_wf(s),
        s.phase is AwaitProbe,
    ensures
        ({
            let i = s.phase->AwaitProbe_0 as int;
            let planned = spec_plan(s.trash_path, s.cwd, s.files[i], kind, names_of(dir_files@));
            let turn = spec_step(s, Event::Probed { kind, dir_files }).1;
            &&& planned is Ok <==> turn.action is Rename
            &&& planned matches Ok(m) ==> turn.action == ActionView::Rename(m)
            &&& planned matches Err(e) ==> turn.report == Some(e)
        }),
{
}

/// No operand ends the batch: whatever is observed while an operand is
/// worked on, the dispatcher goes on with that operand or the next, or ends
/// with success behind the last.
pub proof fn lemma_batch_goes_on(s: State, event: Event)
    requires
        spec_wf(s),
        s.phase is AwaitProbe || s.phase is AwaitMove || s.phase is AwaitRecorded,
    ensures
        ({
            let i = match s.phase {
                Phase::AwaitProbe(i) => i,
                Phase::AwaitMove(i) => i,
                Phase::AwaitRecorded(i) => i,
                _ => 0,
            };
            let (next, turn) = spec_step(s, event);
            &&& !(turn.action is Finish && turn.action->Finish_0 is Err)
            &&& (next.phase == Phase::AwaitMove(i) && s.phase is AwaitProbe) || (next.phase
                == Phase::AwaitRecorded(i) && s.phase is AwaitMove) || (i + 1 < s.files.len()
                && next.phase == Phase::AwaitProbe((i + 1) as usize)) || (i + 1 == s.files.len()
                && next.phase == Phase::Finished && turn.action == ActionView::Finish(Ok(())))
        }),
{
}

/// The state that a run ends in: the events are taken one after the other,
/// each by one step.
pub open spec fn spec_run(s: State, events: Seq<Event>) -> State
    decreases events.len(),
{
    if events.len() == 0 {
        s
    } else {
        spec_run(spec_step(s, events[0]).0, events.drop_first())
    }
}

/// What holds while a confirmed request to empty the trash is carried out:
/// the dispatcher deletes, or clears the store, or is done; and where it is
/// done without an error, the index is empty.
pub open spec fn spec_purging(s: State) -> bool {
    match s.phase {
        Phase::AwaitChildren => true,
        Phase::Removing(_) => true,
        Phase::AwaitCleared => true,
        Phase::Finished => s.outcome is Err || s.index == Seq::<Row>::empty(),
        _ => false,
    }
}

/// Every run leads from a well-formed state to a well-formed state.
pub proof fn lemma_run_keeps_wf(s: State, events: Seq<Event>)
    requires
        spec_wf(s),
    ensures
        spec_wf(spec_run(s, events)),
    decreases events.len(),
{
    if events.len() > 0 {
        lemma_step_keeps_wf(s, events[0]);
        lemma_run_keeps_wf(spec_step(s, events[0]).0, events.drop_first());
    }
}

/// Once the work is over it stays over: whatever is reported afterwards,
/// the index and the result stay as they were.
pub proof fn lemma_finished_is_final(s: State, events: Seq<Event>)
    requires
        s.phase == Phase::Finished,
    ensures
        spec_run(s, events).phase == Phase::Finished,
        spec_run(s, events).index == s.index,
        spec_run(s, events).outcome == s.outcome,
    decreases events.len(),
{
    if events.len() > 0 {
        lemma_finished_is_final(spec_step(s, events[0]).0, events.drop_first());
    }
}

proof fn lemma_purging_run(s: State, events: Seq<Event>)
    requires
        spec_purging(s),
    ensures
        spec_purging(spec_run(s, events)),
    decreases events.len(),
{
    if events.len() > 0 {
        lemma_purging_run(spec_step(s, events[0]).0, events.drop_first());
    }
}

/// A request to empty the trash that is confirmed and ends with success
/// leaves the index empty, however many children the trash directory had
/// and whatever the caller reported on the way.
pub proof fn lemma_confirmed_purge_empties_index(
    s: State,
    first: Event,
    answer: String,
    rest: Seq<Event>,
)
    requires
        s.phase == Phase::Start,
        s.mode == Mode::Purge,
        spec_confirmed(answer@),
    ensures
        ({
            let asked = spec_step(s, first).0;
            let confirmed = spec_step(asked, Event::Answer(answer)).0;
            let end = spec_run(confirmed, rest);
            end.phase == Phase::Finished && end.outcome is Ok ==> end.index == Seq::<Row>::empty()
        }),
{
    let asked = spec_step(s, first).0;
    let confirmed = spec_step(asked, Event::Answer(answer)).0;
    assert(confirmed.phase == Phase::AwaitChildren);
    lemma_purging_run(confirmed, rest);
}

/// A request to empty the trash that is declined leaves the index as it
/// was, whatever the caller reports afterwards.
pub proof fn lemma_declined_purge_keeps_index(
    s: State,
    first: Event,
    answer: String,
    rest: Seq<Event>,
)
    requires
        s.phase == Phase::Start,
        s.mode == Mode::Purge,
        !spec_confirmed(answer@),
    ensures
        ({
            let asked = spec_step(s, first).0;
            let declined = spec_step(asked, Event::Answer(answer)).0;
            let end = spec_run(declined, rest);
            end.phase == Phase::Finished && end.outcome == Ok::<(), RRMError>(()) && end.index
                == s.index
        }),
{
    let asked = spec_step(s, first).0;
    let declined = spec_step(asked, Event::Answer(answer)).0;
    lemma_finished_is_final(declined, rest);
}

/// The dispatcher: it turns what the command line asked for into a sequence
/// of actions on the trash directory and the store, one at a time, and
/// keeps the index in step with what the caller reports.
pub struct Dispatcher {
    app: App,
    phase: Phase,
    cwd: String,
    plan: Vec<Removal>,
    pending: Option<Transfer>,
    outcome: Result<(), RRMError>,
}

impl View for Dispatcher {
    type V = State;

    closed spec fn view(&self) -> State {
        State {
            phase: self.phase,
            mode: self.app.cmd_args.spec_mode(),
            files: names_of(self.app.files@),
            trash_path: self.app.trash_path@,
            index: self.app.file_db@,
            cwd: self.cwd@,
            plan: removals_of(self.plan@),
            pending: match self.pending {
                Some(transfer) => Some(transfer@),
                None => None,
            },
            outcome: self.outcome,
        }
    }
}

/// The state in which a dispatcher for `app` begins.
pub open spec fn spec_initial(app: App) -> State {
    State {
        phase: Phase::Start,
        mode: app.cmd_args.spec_mode(),
        files: names_of(app.files@),
        trash_path: app.trash_path@,
        index: app.file_db@,
        cwd: Seq::empty(),
        plan: Seq::empty(),
        pending: None,
        outcome: Ok(()),
    }
}

fn quiet_turn(action: Action) -> (turn: Turn)
    ensures
        turn@ == quiet(action@),
{
    let turn = Turn { print: Vec::new(), report: None, action };
    proof {
        assert(lines_of(turn.print@) =~= Seq::<Seq<char>>::empty());
    }
    turn
}

fn one_line(text: &str) -> (lines: Vec<String>)
    ensures
        lines_of(lines@) == seq![text@],
{
    let mut lines: Vec<String> = Vec::new();
    lines.push(String::from_str(text));
    proof {
        assert(lines_of(lines@) =~= seq![text@]);
    }
    lines
}

fn no_lines() -> (lines: Vec<String>)
    ensures
        lines_of(lines@) == Seq::<Seq<char>>::empty(),
{
    let lines: Vec<String> = Vec::new();
    proof {
        assert(lines_of(lines@) =~= Seq::<Seq<char>>::empty());
    }
    lines
}

fn copy_transfer(transfer: &Transfer) -> (copy: Transfer)
    ensures
        copy@ == transfer@,
{
    Transfer {
        from: transfer.from.clone(),
        to: transfer.to.clone(),
        name: transfer.name.clone(),
    }
}

fn copy_result(result: &Result<(), RRMError>) -> (copy: Result<(), RRMError>)
    ensures
        copy == *result,
{
    match result {
        Ok(unit) => Ok(*unit),
        Err(e) => Err(e.copy()),
    }
}

fn copy_removal(removal: &Removal) -> (copy: Removal)
    ensures
        copy@ == removal@,
{
    Removal { path: removal.path.clone(), how: removal.how }
}

impl Dispatcher {
    /// What every dispatcher satisfies.
    pub open spec fn wf(&self) -> bool {
        spec_wf(self@)
    }

    /// A dispatcher for `app`, before its first turn.
    pub fn new(app: App) -> (dispatcher: Dispatcher)
        requires
            app.wf(),
        ensures
            dispatcher.wf(),
            dispatcher@ == spec_initial(app),
    {
        let dispatcher = Dispatcher {
            app,
            phase: Phase::Start,
            cwd: String::new(),
            plan: Vec::new(),
            pending: None,
            outcome: Ok(()),
        };
        proof {
            assert(removals_of(dispatcher.plan@) =~= Seq::empty());
        }
        dispatcher
    }

    /// The manager that the dispatcher works on.
    pub fn app(&self) -> (app: &App)
        ensures
            app.file_db@ == self@.index,
            app.trash_path@ == self@.trash_path,
            names_of(app.files@) == self@.files,
            app.cmd_args.spec_mode() == self@.mode,
    {
        &self.app
    }

    /// Where the dispatcher stands.
    pub fn phase(&self) -> (phase: Phase)
        ensures
            phase == self@.phase,
    {
        self.phase
    }

    fn finish(&mut self, print: Vec<String>, result: Result<(), RRMError>) -> (turn: Turn)
        requires
            unique_names(old(self)@.index),
        ensures
            final(self).wf(),
            (final(self)@, turn@) == spec_finish(old(self)@, lines_of(print@), result),
    {
        self.phase = Phase::Finished;
        self.pending = None;
        self.outcome = copy_result(&result);
        Turn { print, report: None, action: Action::Finish(result) }
    }

    fn advance(&mut self, next: usize, report: Option<RRMError>) -> (turn: Turn)
        requires
            unique_names(old(self)@.index),
        ensures
            final(self).wf(),
            (final(self)@, turn@) == spec_advance(old(self)@, next as int, report),
    {
        self.pending = None;
        if next < self.app.files.len() {
            proof {
                assert(names_of(self.app.files@)[next as int] == self.app.files[next as int]@);
            }
            let path = resolve(self.cwd.as_str(), self.app.files[next].as_str());
            self.phase = Phase::AwaitProbe(next);
            Turn { print: no_lines(), report, action: Action::Probe(path) }
        } else {
            self.phase = Phase::Finished;
            self.outcome = Ok(());
            Turn { print: no_lines(), report, action: Action::Finish(Ok(())) }
        }
    }

    fn start(&mut self) -> (turn: Turn)
        requires
            unique_names(old(self)@.index),
        ensures
            final(self).wf(),
            (final(self)@, turn@) == spec_start(old(self)@),
    {
        match self.app.cmd_args.mode() {
            Mode::Purge => {
                self.phase = Phase::AwaitAnswer;
                Turn { print: one_line(PROMPT), report: None, action: Action::Confirm }
            },
            Mode::List => {
                self.phase = Phase::AwaitListing;
                quiet_turn(Action::ListNames)
            },
            Mode::Trash => {
                if self.app.files.len() == 0 {
                    self.finish(no_lines(), Ok(()))
                } else {
                    self.phase = Phase::AwaitCwd;
                    quiet_turn(Action::WorkingDir)
                }
            },
        }
    }

    fn begin_purge(&mut self, children: &Vec<TrashChild>) -> (turn: Turn)
        requires
            unique_names(old(self)@.index),
        ensures
            final(self).wf(),
            (final(self)@, turn@) == spec_begin_purge(old(self)@, children@),
    {
        self.plan = self.app.permanenent_delete(children);
        if self.plan.len() == 0 {
            self.phase = Phase::AwaitCleared;
            quiet_turn(Action::ClearStore)
        } else {
            proof {
                assert(removals_of(self.plan@)[0] == self.plan[0]@);
            }
            self.phase = Phase::Removing(0);
            quiet_turn(Action::Remove(copy_removal(&self.plan[0])))
        }
    }

    fn after_move(&mut self, i: usize, outcome: MoveOutcome) -> (turn: Turn)
        requires
            old(self).wf(),
            old(self)@.phase == Phase::AwaitMove(i),
        ensures
            final(self).wf(),
            (final(self)@, turn@) == spec_after_move(old(self)@, i as int, outcome),
    {
        proof {
            assert(names_of(self.app.files@).len() == self.app.files.len());
        }
        match move_result(outcome) {
            Ok(_) => match &self.pending {
                Some(transfer) => {
                    if self.app.file_db.contains(&transfer.name) {
                        self.advance(i + 1, Some(RRMError::Duplicate))
                    } else {
                        let entry = FileEntryDB {
                            name: transfer.name.clone(),
                            origin: self.cwd.clone(),
                        };
                        self.phase = Phase::AwaitRecorded(i);
                        quiet_turn(Action::Record(entry))
                    }
                },
                None => unreached(),
            },
            Err(e) => self.advance(i + 1, Some(e)),
        }
    }

    fn after_record(&mut self, i: usize) -> (turn: Turn)
        requires
            old(self).wf(),
            old(self)@.phase == Phase::AwaitRecorded(i),
        ensures
            final(self).wf(),
            (final(self)@, turn@) == spec_advance(
                (State {
                    index: old(self)@.index.push((old(self)@.pending->Some_0.2, old(self)@.cwd)),
                    ..old(self)@
                }),
                i + 1,
                None,
            ),
    {
        proof {
            assert(names_of(self.app.files@).len() == self.app.files.len());
        }
        match self.pending.take() {
            Some(transfer) => match self.app.store_in_db(&transfer.name, self.cwd.as_str()) {
                Ok(_) => self.advance(i + 1, None),
                Err(_) => unreached(),
            },
            None => unreached(),
        }
    }

    /// One step: takes note of what the caller observed while it carried out
    /// the action before, and says what to do next.
    pub fn step(&mut self, event: Event) -> (turn: Turn)
        requires
            old(self).wf(),
        ensures
            final(self).wf(),
            (final(self)@, turn@) == spec_step(old(self)@, event),
    {
        proof {
            assert(names_of(self.app.files@).len() == self.app.files.len());
            assert(removals_of(self.plan@).len() == self.plan.len());
        }
        match self.phase {
            Phase::Start => self.start(),
            Phase::AwaitAnswer => match event {
                Event::Answer(answer) => match self.app.execute(answer.as_str()) {
                    Task::Purge => {
                        self.phase = Phase::AwaitChildren;
                        Turn {
                            print: one_line(WILL_CLEAR),
                            report: None,
                            action: Action::ListChildren,
                        }
                    },
                    _ => self.finish(one_line(WILL_NOT_CLEAR), Ok(())),
                },
                _ => self.finish(no_lines(), Err(RRMError::IO)),
            },
            Phase::AwaitChildren => match event {
                Event::Children(children) => self.begin_purge(&children),
                _ => self.finish(no_lines(), Err(RRMError::IO)),
            },
            Phase::Removing(i) => match event {
                Event::Done => {
                    if i + 1 < self.plan.len() {
                        proof {
                            assert(removals_of(self.plan@)[i + 1] == self.plan[i + 1]@);
                        }
                        self.phase = Phase::Removing(i + 1);
                        quiet_turn(Action::Remove(copy_removal(&self.plan[i + 1])))
                    } else {
                        self.phase = Phase::AwaitCleared;
                        quiet_turn(Action::ClearStore)
                    }
                },
                _ => self.finish(no_lines(), Err(RRMError::IO)),
            },
            Phase::AwaitCleared => match event {
                Event::Done => {
                    self.app.forget_all();
                    self.finish(no_lines(), Ok(()))
                },
                _ => self.finish(no_lines(), Err(RRMError::IndexUnavailable)),
            },
            Phase::AwaitListing => match event {
                Event::Names(names) => match self.app.list_trash(&names) {
                    Ok(lines) => self.finish(lines, Ok(())),
                    Err(_) => unreached(),
                },
                _ => self.finish(no_lines(), Err(RRMError::IO)),
            },
            Phase::AwaitCwd => match event {
                Event::Cwd(cwd) => {
                    self.cwd = cwd;
                    self.advance(0, None)
                },
                _ => self.finish(no_lines(), Err(RRMError::IO)),
            },
            Phase::AwaitProbe(i) => match event {
                Event::Probed { kind, dir_files } => {
                    proof {
                        assert(names_of(self.app.files@)[i as int] == self.app.files[i as int]@);
                    }
                    let planned = self.app.move_to_trash(
                        self.app.files[i].as_str(),
                        self.cwd.as_str(),
                        kind,
                        &dir_files,
                    );
                    match planned {
                        Ok(transfer) => {
                            let action = Action::Rename(copy_transfer(&transfer));
                            self.pending = Some(transfer);
                            self.phase = Phase::AwaitMove(i);
                            quiet_turn(action)
                        },
                        Err(e) => self.advance(i + 1, Some(e)),
                    }
                },
                _ => self.advance(i + 1, Some(RRMError::IO)),
            },
            Phase::AwaitMove(i) => match event {
                Event::Moved(outcome) => self.after_move(i, outcome),
                _ => self.advance(i + 1, Some(RRMError::IO)),
            },
            Phase::AwaitRecorded(i) => match event {
                Event::Done => self.after_record(i),
                _ => self.advance(i + 1, Some(RRMError::IndexUnavailable)),
            },
            Phase::Finished => {
                let outcome = copy_result(&self.outcome);
                self.finish(no_lines(), outcome)
            },
        }
    }
}

} // verus!
