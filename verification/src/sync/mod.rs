//! The sync engine. One task per feed goes from pending over fetching and
//! appending to done; each step takes what the outside world answered and
//! says what to do next. Tasks share nothing but the read-only snapshot of
//! the identities that the mailbox already holds.

use crate::imap::MessageIds;
use crate::model::{Entry, EntryView, Feed, FeedView};
use crate::transform::{
    extract_feed_title, extract_message_at, extract_message_id, spec_feed_title, spec_identity,
    spec_message, unix_now, TransformError,
};
use std::sync::Arc;
use vstd::prelude::*;
use vstd::string::{StrSliceExecFns, StringExecFns};

pub mod run;

verus! {

/// How many characters of a feed's title are shown with its entry count.
pub const DISPLAY_TITLE_LEN: usize = 20;

/// Where the messages of a run are addressed to.
pub struct Syncer {
    name: String,
    email: String,
}

/// The recipient of every message that a syncer composes.
pub ghost struct Recipient {
    pub name: Seq<char>,
    pub email: Seq<char>,
}

impl View for Syncer {
    type V = Recipient;

    closed spec fn view(&self) -> Recipient {
        Recipient { name: self.name@, email: self.email@ }
    }
}

/// One feed to sync, known by its URL.
pub trait Input {
    fn url(&self) -> &str;
}

/// Why the task of a feed failed.
#[derive(Debug, Clone, PartialEq, Eq)]
pub enum SyncError {
    /// The feed could not be fetched or parsed.
    Fetch(String),
    /// An entry could not be turned into a message.
    Transform(TransformError),
    /// The mailbox refused a message.
    Append(String),
}

pub ghost enum SyncErrorView {
    Fetch(Seq<char>),
    Transform(TransformError),
    Append(Seq<char>),
}

impl View for SyncError {
    type V = SyncErrorView;

    open spec fn view(&self) -> SyncErrorView {
        match *self {
            SyncError::Fetch(reason) => SyncErrorView::Fetch(reason@),
            SyncError::Transform(e) => SyncErrorView::Transform(e),
            SyncError::Append(reason) => SyncErrorView::Append(reason@),
        }
    }
}

impl SyncError {
    /// A copy of the error.
    pub fn duplicate(&self) -> (copy: SyncError)
        ensures
            copy@ == self@,
    {
        match self {
            SyncError::Fetch(reason) => SyncError::Fetch(reason.clone()),
            SyncError::Transform(e) => SyncError::Transform(*e),
            SyncError::Append(reason) => SyncError::Append(reason.clone()),
        }
    }

    /// The error in words.
    pub fn message(&self) -> (text: String)
        ensures
            text@ == match self@ {
                SyncErrorView::Fetch(reason) => reason,
                SyncErrorView::Transform(TransformError::NoContent) => "no content"@,
                SyncErrorView::Transform(TransformError::InvalidBaseUrl) =>
                    "the base URL of the entry is not absolute"@,
                SyncErrorView::Transform(TransformError::Rewrite) =>
                    "the body of the entry could not be rewritten"@,
                SyncErrorView::Append(reason) => reason,
            },
    {
        match self {
            SyncError::Fetch(reason) => reason.clone(),
            SyncError::Transform(e) => e.message(),
            SyncError::Append(reason) => reason.clone(),
        }
    }
}

/// How the task of a feed ended.
pub open spec fn outcome_view(outcome: Result<(), SyncError>) -> Result<(), SyncErrorView> {
    match outcome {
        Ok(()) => Ok(()),
        Err(e) => Err(e@),
    }
}

/// What the outside world answers to a task.
#[derive(Debug, PartialEq, Eq)]
pub enum Event {
    /// The run has begun.
    Start,
    /// The feed was fetched and parsed, or the reason why not.
    Fetched(Result<Feed, String>),
    /// The mailbox took the message, or the reason why not.
    Appended(Result<(), String>),
}

pub ghost enum EventView {
    Start,
    Fetched(Result<FeedView, Seq<char>>),
    Appended(Result<(), Seq<char>>),
}

impl View for Event {
    type V = EventView;

    open spec fn view(&self) -> EventView {
        match *self {
            Event::Start => EventView::Start,
            Event::Fetched(Ok(feed)) => EventView::Fetched(Ok(feed@)),
            Event::Fetched(Err(reason)) => EventView::Fetched(Err(reason@)),
            Event::Appended(Ok(())) => EventView::Appended(Ok(())),
            Event::Appended(Err(reason)) => EventView::Appended(Err(reason@)),
        }
    }
}

/// What a task asks of the outside world. The reports are told to the
/// reporter and need no answer; a fetch is answered by `Event::Fetched` and
/// an append by `Event::Appended`.
#[derive(Debug, PartialEq, Eq)]
pub enum Action {
    /// Report that the feed's task has begun.
    ReportBegin,
    /// Fetch and parse the feed.
    Fetch,
    /// Report the feed's title, cut to its first characters, and how many
    /// entries it has.
    ReportEntriesCount { title: String, count: u64 },
    /// Append the message of the entry with this identity to the mailbox.
    Append { id: String, mail: Vec<u8> },
    /// Report that one more entry has been dealt with.
    ReportEntry,
    /// Report how the feed's task ended.
    ReportEnd { outcome: Result<(), SyncError> },
}

pub ghost enum ActionView {
    ReportBegin,
    Fetch,
    ReportEntriesCount { title: Seq<char>, count: u64 },
    Append { id: Seq<char>, mail: Seq<u8> },
    ReportEntry,
    ReportEnd { outcome: Result<(), SyncErrorView> },
}

impl View for Action {
    type V = ActionView;

    open spec fn view(&self) -> ActionView {
        match *self {
            Action::ReportBegin => ActionView::ReportBegin,
            Action::Fetch => ActionView::Fetch,
            Action::ReportEntriesCount { title, count } => ActionView::ReportEntriesCount {
                title: title@,
                count,
            },
            Action::Append { id, mail } => ActionView::Append { id: id@, mail: mail@ },
            Action::ReportEntry => ActionView::ReportEntry,
            Action::ReportEnd { outcome } => ActionView::ReportEnd {
                outcome: outcome_view(outcome),
            },
        }
    }
}

/// The actions of a list, in order.
pub open spec fn actions_view(actions: Seq<Action>) -> Seq<ActionView> {
    Seq::new(actions.len(), |i: int| actions[i]@)
}

/// What is done with one entry.
#[derive(Debug, Clone, PartialEq, Eq)]
pub enum EntryPlan {
    /// A message with its identity is in the mailbox already.
    Skip,
    /// It is new: this is its identity and its message.
    Append { id: String, mail: Vec<u8> },
    /// It is new, but no message can be made of it.
    Fail(TransformError),
}

pub ghost enum EntryPlanView {
    Skip,
    Append { id: Seq<char>, mail: Seq<u8> },
    Fail(TransformError),
}

impl View for EntryPlan {
    type V = EntryPlanView;

    open spec fn view(&self) -> EntryPlanView {
        match *self {
            EntryPlan::Skip => EntryPlanView::Skip,
            EntryPlan::Append { id, mail } => EntryPlanView::Append { id: id@, mail: mail@ },
            EntryPlan::Fail(e) => EntryPlanView::Fail(e),
        }
    }
}

enum Phase {
    Pending,
    Fetching,
    Appending { feed: Feed, index: usize },
    Done { outcome: Result<(), SyncError> },
}

/// The task of one feed.
pub struct FeedTask {
    phase: Phase,
}

/// The states of a task. While a message is being appended the task holds
/// the feed and the index of the entry that the message is for.
pub ghost enum TaskView {
    Pending,
    Fetching,
    Appending { feed: FeedView, index: int },
    Done { outcome: Result<(), SyncErrorView> },
}

/// Whether a state can be reached: while a message is being appended, the
/// entry that it is for is one of the feed's.
pub open spec fn spec_reachable(task: TaskView) -> bool {
    match task {
        TaskView::Appending { feed, index } => 0 <= index < feed.entries.len(),
        _ => true,
    }
}

impl View for FeedTask {
    type V = TaskView;

    closed spec fn view(&self) -> TaskView {
        match self.phase {
            Phase::Pending => TaskView::Pending,
            Phase::Fetching => TaskView::Fetching,
            Phase::Appending { feed, index } => TaskView::Appending {
                feed: feed@,
                index: index as int,
            },
            Phase::Done { outcome } => TaskView::Done { outcome: outcome_view(outcome) },
        }
    }
}

/// What is done with one entry: it is skipped where its identity is known,
/// else its message is appended, or the task fails where there is none.
pub open spec fn spec_plan(
    to: Recipient,
    feed: FeedView,
    entry: EntryView,
    known: Set<Seq<char>>,
    now: i64,
) -> EntryPlanView {
    let id = spec_identity(feed.id, entry.id);
    if known.contains(id) {
        EntryPlanView::Skip
    } else {
        match spec_message(to.name, to.email, feed, entry, now) {
            Ok(mail) => EntryPlanView::Append { id, mail },
            Err(e) => EntryPlanView::Fail(e),
        }
    }
}

/// Going over the entries from `from` on until a message has to be appended
/// or the task is done: the actions on the way, and the state reached. Each
/// known entry is reported and passed over. The first new entry either gives
/// the append that the task then waits for, or, where no message can be made
/// of it, is reported and ends the task with that failure. Where no entry is
/// left the task ends well.
pub open spec fn spec_scan(
    to: Recipient,
    feed: FeedView,
    known: Set<Seq<char>>,
    now: i64,
    from: int,
) -> (Seq<ActionView>, TaskView)
    decreases feed.entries.len() - from,
{
    if from < 0 || from >= feed.entries.len() {
        (seq![ActionView::ReportEnd { outcome: Ok(()) }], TaskView::Done { outcome: Ok(()) })
    } else {
        match spec_plan(to, feed, feed.entries[from], known, now) {
            EntryPlanView::Skip => {
                let rest = spec_scan(to, feed, known, now, from + 1);
                (seq![ActionView::ReportEntry] + rest.0, rest.1)
            },
            EntryPlanView::Append { id, mail } => (
                seq![ActionView::Append { id, mail }],
                TaskView::Appending { feed, index: from },
            ),
            EntryPlanView::Fail(e) => (
                seq![
                    ActionView::ReportEntry,
                    ActionView::ReportEnd { outcome: Err(SyncErrorView::Transform(e)) },
                ],
                TaskView::Done { outcome: Err(SyncErrorView::Transform(e)) },
            ),
        }
    }
}

/// The title of a feed as it is shown: its first twenty characters.
pub open spec fn spec_display_title(feed: FeedView) -> Seq<char> {
    let title = spec_feed_title(feed);
    if title.len() <= DISPLAY_TITLE_LEN {
        title
    } else {
        title.take(DISPLAY_TITLE_LEN as int)
    }
}

/// One step of a task: the state after the event, and what to do next, in
/// order.
///
/// A pending task begins by reporting so and asking for the feed. A failed
/// fetch ends the task. A fetched feed is announced with its entry count and
/// its entries are gone over. After an append that the mailbox took, the
/// entry is reported and the rest is gone over; after one that it refused,
/// the entry is reported too and the task ends with that failure. An event
/// that the task does not wait for changes nothing and asks for nothing.
pub open spec fn spec_step(
    to: Recipient,
    task: TaskView,
    event: EventView,
    known: Set<Seq<char>>,
    now: i64,
) -> (TaskView, Seq<ActionView>) {
    match (task, event) {
        (TaskView::Pending, EventView::Start) => (
            TaskView::Fetching,
            seq![ActionView::ReportBegin, ActionView::Fetch],
        ),
        (TaskView::Fetching, EventView::Fetched(Err(reason))) => (
            TaskView::Done { outcome: Err(SyncErrorView::Fetch(reason)) },
            seq![ActionView::ReportEnd { outcome: Err(SyncErrorView::Fetch(reason)) }],
        ),
        (TaskView::Fetching, EventView::Fetched(Ok(feed))) => {
            let scan = spec_scan(to, feed, known, now, 0);
            (
                scan.1,
                seq![
                    ActionView::ReportEntriesCount {
                        title: spec_display_title(feed),
                        count: feed.entries.len() as u64,
                    },
                ] + scan.0,
            )
        },
        (TaskView::Appending { feed, index }, EventView::Appended(Ok(()))) => {
            let scan = spec_scan(to, feed, known, now, index + 1);
            (scan.1, seq![ActionView::ReportEntry] + scan.0)
        },
        (TaskView::Appending { feed, index }, EventView::Appended(Err(reason))) => (
            TaskView::Done { outcome: Err(SyncErrorView::Append(reason)) },
            seq![
                ActionView::ReportEntry,
                ActionView::ReportEnd { outcome: Err(SyncErrorView::Append(reason)) },
            ],
        ),
        _ => (task, Seq::empty()),
    }
}

impl FeedTask {
    #[verifier::type_invariant]
    spec fn entry_in_reach(&self) -> bool {
        match self.phase {
            Phase::Appending { feed, index } => index < feed.entries.len(),
            _ => true,
        }
    }

    /// A task that has not begun.
    pub fn new() -> (task: FeedTask)
        ensures
            task@ == TaskView::Pending,
            spec_reachable(task@),
    {
        FeedTask { phase: Phase::Pending }
    }

    /// Whether the task has ended.
    pub fn is_done(&self) -> (done: bool)
        ensures
            done == (self@ is Done),
    {
        match &self.phase {
            Phase::Done { .. } => true,
            _ => false,
        }
    }

    /// How the task ended, once it has.
    pub fn outcome(&self) -> (outcome: Option<Result<(), SyncError>>)
        ensures
            match outcome {
                Some(o) => self@ == (TaskView::Done { outcome: outcome_view(o) }),
                None => !(self@ is Done),
            },
    {
        match &self.phase {
            Phase::Done { outcome: Ok(()) } => Some(Ok(())),
            Phase::Done { outcome: Err(e) } => Some(Err(e.duplicate())),
            _ => None,
        }
    }
}

/// The first characters of a feed's title, as they are shown with its entry
/// count.
pub fn display_title(feed: &Feed) -> (title: String)
    ensures
        title@ == spec_display_title(feed@),
{
    let full = match extract_feed_title(feed) {
        Ok(title) => title,
        Err(_) => String::new(),
    };
    let len = full.as_str().unicode_len();
    if len <= DISPLAY_TITLE_LEN {
        full
    } else {
        let shown = String::from_str(full.as_str().substring_char(0, DISPLAY_TITLE_LEN));
        assert(shown@ =~= full@.take(DISPLAY_TITLE_LEN as int));
        shown
    }
}

impl Syncer {
    /// A syncer whose messages go to `name` at `email`.
    pub fn new(name: &String, email: &String) -> (syncer: Arc<Syncer>)
        ensures
            syncer@ == (Recipient { name: name@, email: email@ }),
    {
        Arc::new(Syncer { name: name.clone(), email: email.clone() })
    }

    /// Decides what is done with one entry of a feed: nothing where the
    /// mailbox has a message with its identity, else its message is composed.
    pub fn plan_entry(&self, feed: &Feed, entry: &Entry, known: &MessageIds, now: i64) -> (plan:
        EntryPlan)
        ensures
            plan@ == spec_plan(self@, feed@, entry@, known@, now),
    {
        let id = extract_message_id(feed, entry);
        if known.contains(id.as_str()) {
            EntryPlan::Skip
        } else {
            match extract_message_at(self.name.as_str(), self.email.as_str(), feed, entry, now) {
                Ok(mail) => EntryPlan::Append { id, mail },
                Err(e) => EntryPlan::Fail(e),
            }
        }
    }

    /// Goes over the entries of a feed from `from` on, adding what is to be
    /// done to the actions begun, until a message has to be appended or the task is
    /// done.
    fn scan(
        &self,
        feed: Feed,
        from: usize,
        known: &MessageIds,
        now: i64,
        begun: Vec<Action>,
    ) -> (res: (FeedTask, Vec<Action>))
        requires
            from <= feed.entries.len(),
        ensures
            res.0@ == spec_scan(self@, feed@, known@, now, from as int).1,
            actions_view(res.1@) == actions_view(begun@) + spec_scan(
                self@,
                feed@,
                known@,
                now,
                from as int,
            ).0,
    {
        let ghost start = actions_view(begun@);
        let mut actions = begun;
        let mut i: usize = from;
        while i < feed.entries.len()
            invariant
                from <= i <= feed.entries.len(),
                spec_scan(self@, feed@, known@, now, from as int).1 == spec_scan(
                    self@,
                    feed@,
                    known@,
                    now,
                    i as int,
                ).1,
                start == actions_view(begun@),
                start + spec_scan(self@, feed@, known@, now, from as int).0 == actions_view(
                    actions@,
                ) + spec_scan(self@, feed@, known@, now, i as int).0,
            decreases feed.entries.len() - i,
        {
            let ghost before = actions_view(actions@);
            let ghost rest = spec_scan(self@, feed@, known@, now, i as int);
            assert(feed@.entries[i as int] == feed.entries[i as int]@);
            match self.plan_entry(&feed, &feed.entries[i], known, now) {
                EntryPlan::Skip => {
                    actions.push(Action::ReportEntry);
                    proof {
                        let after = spec_scan(self@, feed@, known@, now, i + 1);
                        assert(actions_view(actions@) =~= before.push(ActionView::ReportEntry));
                        assert(before + rest.0 =~= before.push(ActionView::ReportEntry) + after.0);
                    }
                },
                EntryPlan::Append { id, mail } => {
                    let ghost asked = ActionView::Append { id: id@, mail: mail@ };
                    actions.push(Action::Append { id, mail });
                    proof {
                        assert(actions_view(actions@) =~= before.push(asked));
                        assert(before + rest.0 =~= before.push(asked));
                    }
                    return (FeedTask { phase: Phase::Appending { feed, index: i } }, actions);
                },
                EntryPlan::Fail(e) => {
                    actions.push(Action::ReportEntry);
                    actions.push(
                        Action::ReportEnd { outcome: Err(SyncError::Transform(e)) },
                    );
                    proof {
                        assert(actions_view(actions@) =~= before + rest.0);
                    }
                    return (
                        FeedTask { phase: Phase::Done { outcome: Err(SyncError::Transform(e)) } },
                        actions,
                    );
                },
            }
            i += 1;
        }
        let ghost before = actions_view(actions@);
        actions.push(Action::ReportEnd { outcome: Ok(()) });
        proof {
            let rest = spec_scan(self@, feed@, known@, now, i as int);
            assert(actions_view(actions@) =~= before + rest.0);
        }
        (FeedTask { phase: Phase::Done { outcome: Ok(()) } }, actions)
    }

    /// Takes one step of a feed's task at the time `now`: the event is what
    /// the outside world answered to the last action, `known` is the snapshot
    /// of the identities in the mailbox. Gives the task after the step and
    /// the actions to take, in order.
    pub fn step_at(&self, task: FeedTask, event: Event, known: &MessageIds, now: i64) -> (res: (
        FeedTask,
        Vec<Action>,
    ))
        ensures
            (res.0@, actions_view(res.1@)) == spec_step(self@, task@, event@, known@, now),
            spec_reachable(task@),
            spec_reachable(res.0@),
    {
        proof {
            use_type_invariant(&task);
        }
        let ghost expected = spec_step(self@, task@, event@, known@, now);
        let res = match (task.phase, event) {
            (Phase::Pending, Event::Start) => {
                let actions = vec![Action::ReportBegin, Action::Fetch];
                assert(actions_view(actions@) =~= expected.1);
                (FeedTask { phase: Phase::Fetching }, actions)
            },
            (Phase::Fetching, Event::Fetched(Err(reason))) => {
                let failure = SyncError::Fetch(reason);
                let actions = vec![Action::ReportEnd { outcome: Err(failure.duplicate()) }];
                assert(actions_view(actions@) =~= expected.1);
                (FeedTask { phase: Phase::Done { outcome: Err(failure) } }, actions)
            },
            (Phase::Fetching, Event::Fetched(Ok(feed))) => {
                let title = display_title(&feed);
                let count = feed.entries.len() as u64;
                let actions = vec![Action::ReportEntriesCount { title, count }];
                assert(actions_view(actions@) =~= seq![
                    ActionView::ReportEntriesCount {
                        title: spec_display_title(feed@),
                        count: feed@.entries.len() as u64,
                    },
                ]);
                self.scan(feed, 0, known, now, actions)
            },
            (Phase::Appending { feed, index }, Event::Appended(Ok(()))) => {
                let actions = vec![Action::ReportEntry];
                assert(actions_view(actions@) =~= seq![ActionView::ReportEntry]);
                self.scan(feed, index + 1, known, now, actions)
            },
            (Phase::Appending { feed, index }, Event::Appended(Err(reason))) => {
                let failure = SyncError::Append(reason);
                let actions = vec![
                    Action::ReportEntry,
                    Action::ReportEnd { outcome: Err(failure.duplicate()) },
                ];
                assert(actions_view(actions@) =~= expected.1);
                (FeedTask { phase: Phase::Done { outcome: Err(failure) } }, actions)
            },
            (phase, _) => {
                let actions: Vec<Action> = Vec::new();
                assert(actions_view(actions@) =~= expected.1);
                (FeedTask { phase }, actions)
            },
        };
        proof {
            use_type_invariant(&res.0);
        }
        res
    }

    /// Takes one step of a feed's task. A message for an entry without a
    /// date of its own is dated by the clock, so the step is that of
    /// `step_at` for some time.
    pub fn step(&self, task: FeedTask, event: Event, known: &MessageIds) -> (res: (
        FeedTask,
        Vec<Action>,
    ))
        ensures
            exists|now: i64|
                (res.0@, actions_view(res.1@)) == #[trigger] spec_step(
                    self@,
                    task@,
                    event@,
                    known@,
                    now,
                ),
            spec_reachable(task@),
            spec_reachable(res.0@),
    {
        let now = unix_now();
        self.step_at(task, event, known, now)
    }
}

} // verus!
