//! Whole runs of a feed's task, and what holds of them.

use crate::model::FeedView;
use crate::sync::{
    spec_display_title, spec_plan, spec_reachable, spec_scan, spec_step, ActionView, EntryPlanView,
    EventView, Recipient, SyncErrorView, TaskView,
};
use crate::transform::{spec_content, spec_identity, spec_message};
use vstd::prelude::*;

verus! {

/// The identity of the entry at `index` of a feed.
pub open spec fn spec_identity_at(feed: FeedView, index: int) -> Seq<char> {
    spec_identity(feed.id, feed.entries[index].id)
}

/// What a task does with the entries from `from` on where the mailbox takes
/// every message: a known entry is reported, a new one is appended and
/// reported, and one that no message can be made of is reported and ends the
/// task.
pub open spec fn spec_pass(
    to: Recipient,
    feed: FeedView,
    known: Set<Seq<char>>,
    now: i64,
    from: int,
) -> Seq<ActionView>
    decreases feed.entries.len() - from,
{
    if from < 0 || from >= feed.entries.len() {
        seq![ActionView::ReportEnd { outcome: Ok(()) }]
    } else {
        match spec_plan(to, feed, feed.entries[from], known, now) {
            EntryPlanView::Skip => seq![ActionView::ReportEntry] + spec_pass(
                to,
                feed,
                known,
                now,
                from + 1,
            ),
            EntryPlanView::Append { id, mail } => seq![
                ActionView::Append { id, mail },
                ActionView::ReportEntry,
            ] + spec_pass(to, feed, known, now, from + 1),
            EntryPlanView::Fail(e) => seq![
                ActionView::ReportEntry,
                ActionView::ReportEnd { outcome: Err(SyncErrorView::Transform(e)) },
            ],
        }
    }
}

/// The actions of a task that is stepped on for at most `steps` appends,
/// each of which the mailbox takes.
pub open spec fn spec_drive(
    to: Recipient,
    task: TaskView,
    known: Set<Seq<char>>,
    now: i64,
    steps: nat,
) -> Seq<ActionView>
    decreases steps,
{
    if steps > 0 && task is Appending {
        let next = spec_step(to, task, EventView::Appended(Ok(())), known, now);
        next.1 + spec_drive(to, next.0, known, now, (steps - 1) as nat)
    } else {
        Seq::empty()
    }
}

/// The run of one feed's task from its start to its end: every action that
/// it asks for, in order, where the fetch answers `fetched` and the mailbox
/// takes every message.
pub open spec fn spec_run(
    to: Recipient,
    fetched: Result<FeedView, Seq<char>>,
    known: Set<Seq<char>>,
    now: i64,
) -> Seq<ActionView> {
    let begun = spec_step(to, TaskView::Pending, EventView::Start, known, now);
    let got = spec_step(to, begun.0, EventView::Fetched(fetched), known, now);
    let steps = match fetched {
        Ok(feed) => feed.entries.len(),
        Err(_) => 0,
    };
    begun.1 + got.1 + spec_drive(to, got.0, known, now, steps)
}

/// The runs of the tasks of several feeds against one snapshot.
pub open spec fn spec_run_all(
    to: Recipient,
    fetched: Seq<Result<FeedView, Seq<char>>>,
    known: Set<Seq<char>>,
    now: i64,
) -> Seq<Seq<ActionView>> {
    Seq::new(fetched.len(), |i: int| spec_run(to, fetched[i], known, now))
}

/// The identities that a list of actions appends.
pub open spec fn spec_appended(actions: Seq<ActionView>) -> Set<Seq<char>> {
    Set::new(
        |id: Seq<char>|
            exists|k: int|
                0 <= k < actions.len() && (#[trigger] actions[k]) is Append && actions[k]->id
                    == id,
    )
}

/// Whether a list of actions appends nothing.
pub open spec fn appends_nothing(actions: Seq<ActionView>) -> bool {
    forall|k: int| 0 <= k < actions.len() ==> !((#[trigger] actions[k]) is Append)
}

/// The first entry, from `from` on, that is new and that no message can be
/// made of: where a task that meets no refusal stops.
pub open spec fn spec_first_failure(feed: FeedView, known: Set<Seq<char>>, from: int) -> Option<
    int,
>
    decreases feed.entries.len() - from,
{
    if from < 0 || from >= feed.entries.len() {
        None
    } else if !known.contains(spec_identity_at(feed, from)) && spec_content(feed.entries[from])
        is Err {
        Some(from)
    } else {
        spec_first_failure(feed, known, from + 1)
    }
}

/// Going over the entries and then stepping on after every append gives the
/// pass over the entries.
proof fn lemma_scan_then_drive(
    to: Recipient,
    feed: FeedView,
    known: Set<Seq<char>>,
    now: i64,
    from: int,
    steps: nat,
)
    requires
        0 <= from <= feed.entries.len(),
        steps >= feed.entries.len() - from,
    ensures
        spec_scan(to, feed, known, now, from).0 + spec_drive(
            to,
            spec_scan(to, feed, known, now, from).1,
            known,
            now,
            steps,
        ) == spec_pass(to, feed, known, now, from),
    decreases feed.entries.len() - from,
{
    let scan = spec_scan(to, feed, known, now, from);
    let pass = spec_pass(to, feed, known, now, from);
    if from >= feed.entries.len() {
        assert(scan.0 + spec_drive(to, scan.1, known, now, steps) =~= pass);
    } else {
        match spec_plan(to, feed, feed.entries[from], known, now) {
            EntryPlanView::Skip => {
                lemma_scan_then_drive(to, feed, known, now, from + 1, steps);
                let rest = spec_scan(to, feed, known, now, from + 1);
                assert(scan.0 + spec_drive(to, scan.1, known, now, steps) =~= seq![
                    ActionView::ReportEntry,
                ] + (rest.0 + spec_drive(to, rest.1, known, now, steps)));
            },
            EntryPlanView::Append { id, mail } => {
                lemma_scan_then_drive(to, feed, known, now, from + 1, (steps - 1) as nat);
                let rest = spec_scan(to, feed, known, now, from + 1);
                let next = spec_step(to, scan.1, EventView::Appended(Ok(())), known, now);
                assert(next.0 == rest.1);
                assert(next.1 == seq![ActionView::ReportEntry] + rest.0);
                assert(scan.0 + spec_drive(to, scan.1, known, now, steps) =~= seq![
                    ActionView::Append { id, mail },
                    ActionView::ReportEntry,
                ] + (rest.0 + spec_drive(to, rest.1, known, now, (steps - 1) as nat)));
            },
            EntryPlanView::Fail(e) => {
                assert(scan.0 + spec_drive(to, scan.1, known, now, steps) =~= pass);
            },
        }
    }
}

/// The run of a feed that was fetched begins with the report of the begin,
/// the fetch and the report of the entry count, and goes on with the pass
/// over all entries.
pub proof fn lemma_run_is_pass(to: Recipient, feed: FeedView, known: Set<Seq<char>>, now: i64)
    ensures
        spec_run(to, Ok(feed), known, now) == seq![
            ActionView::ReportBegin,
            ActionView::Fetch,
            ActionView::ReportEntriesCount {
                title: spec_display_title(feed),
                count: feed.entries.len() as u64,
            },
        ] + spec_pass(to, feed, known, now, 0),
{
    lemma_scan_then_drive(to, feed, known, now, 0, feed.entries.len());
    let scan = spec_scan(to, feed, known, now, 0);
    let count = ActionView::ReportEntriesCount {
        title: spec_display_title(feed),
        count: feed.entries.len() as u64,
    };
    assert(spec_run(to, Ok(feed), known, now) =~= seq![
        ActionView::ReportBegin,
        ActionView::Fetch,
    ] + (seq![count] + scan.0) + spec_drive(to, scan.1, known, now, feed.entries.len()));
    assert(seq![ActionView::ReportBegin, ActionView::Fetch] + (seq![count] + scan.0) + spec_drive(
        to,
        scan.1,
        known,
        now,
        feed.entries.len(),
    ) =~= seq![ActionView::ReportBegin, ActionView::Fetch, count] + (scan.0 + spec_drive(
        to,
        scan.1,
        known,
        now,
        feed.entries.len(),
    )));
}

/// A feed that could not be fetched is reported as begun, asked for, and
/// reported as ended with that failure; nothing is appended.
pub proof fn lemma_failed_fetch_run(
    to: Recipient,
    reason: Seq<char>,
    known: Set<Seq<char>>,
    now: i64,
)
    ensures
        spec_run(to, Err(reason), known, now) == seq![
            ActionView::ReportBegin,
            ActionView::Fetch,
            ActionView::ReportEnd { outcome: Err(SyncErrorView::Fetch(reason)) },
        ],
        appends_nothing(spec_run(to, Err(reason), known, now)),
{
    assert(spec_run(to, Err(reason), known, now) =~= seq![
        ActionView::ReportBegin,
        ActionView::Fetch,
        ActionView::ReportEnd { outcome: Err(SyncErrorView::Fetch(reason)) },
    ]);
}

/// Isolation: what a run does for one feed depends on what that feed gave
/// and on nothing that the other feeds gave, be it a failure.
pub proof fn lemma_feeds_are_isolated(
    to: Recipient,
    fetched: Seq<Result<FeedView, Seq<char>>>,
    other: Seq<Result<FeedView, Seq<char>>>,
    known: Set<Seq<char>>,
    now: i64,
    i: int,
)
    requires
        0 <= i < fetched.len(),
        0 <= i < other.len(),
        fetched[i] == other[i],
    ensures
        spec_run_all(to, fetched, known, now)[i] == spec_run_all(to, other, known, now)[i],
        spec_run_all(to, fetched, known, now)[i] == spec_run(to, fetched[i], known, now),
{
}

/// Every message that a pass appends is that of an entry whose identity the
/// snapshot does not hold.
pub proof fn lemma_pass_appends_only_new(
    to: Recipient,
    feed: FeedView,
    known: Set<Seq<char>>,
    now: i64,
    from: int,
)
    requires
        0 <= from <= feed.entries.len(),
    ensures
        forall|id: Seq<char>|
            spec_appended(spec_pass(to, feed, known, now, from)).contains(id) ==> !known.contains(
                id,
            ),
    decreases feed.entries.len() - from,
{
    let pass = spec_pass(to, feed, known, now, from);
    if from < feed.entries.len() {
        lemma_pass_appends_only_new(to, feed, known, now, from + 1);
        let rest = spec_pass(to, feed, known, now, from + 1);
        assert forall|id: Seq<char>| spec_appended(pass).contains(id) implies !known.contains(
            id,
        ) by {
            let k = choose|k: int|
                0 <= k < pass.len() && (#[trigger] pass[k]) is Append && pass[k]->id == id;
            match spec_plan(to, feed, feed.entries[from], known, now) {
                EntryPlanView::Skip => {
                    assert(pass[k] == rest[k - 1]);
                    assert(spec_appended(rest).contains(id));
                },
                EntryPlanView::Append { id: new_id, mail } => {
                    if k >= 2 {
                        assert(pass[k] == rest[k - 2]);
                        assert(spec_appended(rest).contains(id));
                    }
                },
                EntryPlanView::Fail(e) => {},
            }
        }
    }
}

/// A run never appends a message whose identity the snapshot holds.
pub proof fn lemma_run_appends_only_new(
    to: Recipient,
    fetched: Result<FeedView, Seq<char>>,
    known: Set<Seq<char>>,
    now: i64,
)
    ensures
        forall|id: Seq<char>|
            spec_appended(spec_run(to, fetched, known, now)).contains(id) ==> !known.contains(id),
{
    let run = spec_run(to, fetched, known, now);
    match fetched {
        Ok(feed) => {
            lemma_run_is_pass(to, feed, known, now);
            lemma_pass_appends_only_new(to, feed, known, now, 0);
            let pass = spec_pass(to, feed, known, now, 0);
            assert forall|id: Seq<char>| spec_appended(run).contains(id) implies !known.contains(
                id,
            ) by {
                let k = choose|k: int|
                    0 <= k < run.len() && (#[trigger] run[k]) is Append && run[k]->id == id;
                assert(run[k] == pass[k - 3]);
                assert(spec_appended(pass).contains(id));
            }
        },
        Err(reason) => {
            lemma_failed_fetch_run(to, reason, known, now);
        },
    }
}

/// Up to where a pass stops, every entry is known or a message can be made
/// of it.
proof fn lemma_before_first_failure(feed: FeedView, known: Set<Seq<char>>, from: int, i: int)
    requires
        0 <= from <= i < feed.entries.len(),
        spec_first_failure(feed, known, from) matches Some(at) ==> i < at,
    ensures
        known.contains(spec_identity_at(feed, i)) || spec_content(feed.entries[i]) is Ok,
        spec_first_failure(feed, known, from) == spec_first_failure(feed, known, i + 1),
    decreases i - from,
{
    if from < i {
        if !known.contains(spec_identity_at(feed, from)) && spec_content(feed.entries[from])
            is Err {
        } else {
            lemma_before_first_failure(feed, known, from + 1, i);
        }
    }
}

/// Where a pass stops, it stops at an entry in reach that is new and that no
/// message can be made of.
proof fn lemma_first_failure_is_failure(feed: FeedView, known: Set<Seq<char>>, from: int)
    requires
        0 <= from,
    ensures
        spec_first_failure(feed, known, from) matches Some(at) ==> from <= at
            < feed.entries.len() && !known.contains(spec_identity_at(feed, at)) && spec_content(
            feed.entries[at],
        ) is Err,
    decreases feed.entries.len() - from,
{
    if from < feed.entries.len() {
        lemma_first_failure_is_failure(feed, known, from + 1);
    }
}

/// Every entry that a pass reaches is known before or appended by it.
proof fn lemma_pass_covers(
    to: Recipient,
    feed: FeedView,
    known: Set<Seq<char>>,
    now: i64,
    from: int,
    i: int,
)
    requires
        0 <= from <= i < feed.entries.len(),
        spec_first_failure(feed, known, from) matches Some(at) ==> i < at,
    ensures
        known.contains(spec_identity_at(feed, i)) || spec_appended(
            spec_pass(to, feed, known, now, from),
        ).contains(spec_identity_at(feed, i)),
    decreases i - from,
{
    let pass = spec_pass(to, feed, known, now, from);
    let id = spec_identity_at(feed, i);
    lemma_before_first_failure(feed, known, from, from);
    if from == i {
        if !known.contains(id) {
            assert(pass[0] is Append && pass[0]->id == id);
        }
    } else {
        lemma_pass_covers(to, feed, known, now, from + 1, i);
        let rest = spec_pass(to, feed, known, now, from + 1);
        if !known.contains(id) {
            let k = choose|k: int|
                0 <= k < rest.len() && (#[trigger] rest[k]) is Append && rest[k]->id == id;
            match spec_plan(to, feed, feed.entries[from], known, now) {
                EntryPlanView::Skip => {
                    assert(pass[k + 1] == rest[k]);
                },
                EntryPlanView::Append { id: new_id, mail } => {
                    assert(pass[k + 2] == rest[k]);
                },
                EntryPlanView::Fail(e) => {},
            }
        }
    }
}

/// A pass over entries that are all known, up to the end or to one that is
/// new and that no message can be made of, appends nothing.
proof fn lemma_known_pass_appends_nothing(
    to: Recipient,
    feed: FeedView,
    later: Set<Seq<char>>,
    now: i64,
    from: int,
    stop: int,
)
    requires
        0 <= from <= stop <= feed.entries.len(),
        forall|j: int| from <= j < stop ==> later.contains(#[trigger] spec_identity_at(feed, j)),
        stop < feed.entries.len() ==> !later.contains(spec_identity_at(feed, stop)) && spec_content(
            feed.entries[stop],
        ) is Err,
    ensures
        appends_nothing(spec_pass(to, feed, later, now, from)),
    decreases stop - from,
{
    let pass = spec_pass(to, feed, later, now, from);
    if from < stop {
        lemma_known_pass_appends_nothing(to, feed, later, now, from + 1, stop);
        let rest = spec_pass(to, feed, later, now, from + 1);
        assert(later.contains(spec_identity_at(feed, from)));
        assert(pass =~= seq![ActionView::ReportEntry] + rest);
        assert forall|k: int| 0 <= k < pass.len() implies !((#[trigger] pass[k]) is Append) by {
            if k > 0 {
                assert(pass[k] == rest[k - 1]);
            }
        }
    }
}

/// Running twice appends nothing the second time. The first run works on
/// the snapshot `known`. The second works on a snapshot `later` that holds
/// what `known` held and every identity that the first run appended. Then
/// the second run of the same feed appends nothing, at whatever time it
/// runs.
///
/// This is stated of a first run in which the mailbox took every message,
/// and which did not stop at an entry whose identity is in `later` all the
/// same: past such an entry the second run would find entries that the first
/// never reached.
pub proof fn lemma_second_run_appends_nothing(
    to: Recipient,
    feed: FeedView,
    known: Set<Seq<char>>,
    later: Set<Seq<char>>,
    now: i64,
    later_now: i64,
)
    requires
        known.subset_of(later),
        spec_appended(spec_run(to, Ok(feed), known, now)).subset_of(later),
        spec_first_failure(feed, known, 0) matches Some(at) ==> !later.contains(
            spec_identity_at(feed, at),
        ),
    ensures
        appends_nothing(spec_run(to, Ok(feed), later, later_now)),
        spec_appended(spec_run(to, Ok(feed), later, later_now)) == Set::<Seq<char>>::empty(),
{
    lemma_run_is_pass(to, feed, known, now);
    lemma_run_is_pass(to, feed, later, later_now);
    lemma_first_failure_is_failure(feed, known, 0);
    let first = spec_run(to, Ok(feed), known, now);
    let first_pass = spec_pass(to, feed, known, now, 0);
    let stop = match spec_first_failure(feed, known, 0) {
        Some(at) => at,
        None => feed.entries.len() as int,
    };
    assert forall|j: int| 0 <= j < stop implies later.contains(
        #[trigger] spec_identity_at(feed, j),
    ) by {
        lemma_pass_covers(to, feed, known, now, 0, j);
        let id = spec_identity_at(feed, j);
        if !known.contains(id) {
            let k = choose|k: int|
                0 <= k < first_pass.len() && (#[trigger] first_pass[k]) is Append
                    && first_pass[k]->id == id;
            assert(first[k + 3] == first_pass[k]);
            assert(spec_appended(first).contains(id));
        }
    }
    lemma_known_pass_appends_nothing(to, feed, later, later_now, 0, stop);
    let second = spec_run(to, Ok(feed), later, later_now);
    let second_pass = spec_pass(to, feed, later, later_now, 0);
    assert forall|k: int| 0 <= k < second.len() implies !((#[trigger] second[k]) is Append) by {
        if k >= 3 {
            assert(second[k] == second_pass[k - 3]);
        }
    }
    assert(spec_appended(second) =~= Set::<Seq<char>>::empty());
}

/// Syncing twice appends nothing the second time: where the second sync of
/// the same feeds works on a snapshot that holds what the first one held and
/// all that the first one appended, none of its runs appends a message.
/// As for one feed, this is stated of a first sync in which the mailbox took
/// every message and no run stopped at an entry whose identity the later
/// snapshot holds.
pub proof fn lemma_second_sync_appends_nothing(
    to: Recipient,
    feeds: Seq<FeedView>,
    known: Set<Seq<char>>,
    later: Set<Seq<char>>,
    now: i64,
    later_now: i64,
)
    requires
        known.subset_of(later),
        forall|i: int|
            0 <= i < feeds.len() ==> spec_appended(
                #[trigger] spec_run(to, Ok(feeds[i]), known, now),
            ).subset_of(later),
        forall|i: int|
            0 <= i < feeds.len() ==> (#[trigger] spec_first_failure(feeds[i], known, 0) matches Some(
                at,
            ) ==> !later.contains(spec_identity_at(feeds[i], at))),
    ensures
        forall|i: int|
            0 <= i < feeds.len() ==> appends_nothing(
                #[trigger] spec_run(to, Ok(feeds[i]), later, later_now),
            ),
{
    assert forall|i: int| 0 <= i < feeds.len() implies appends_nothing(
        #[trigger] spec_run(to, Ok(feeds[i]), later, later_now),
    ) by {
        assert(spec_appended(spec_run(to, Ok(feeds[i]), known, now)).subset_of(later));
        assert(spec_first_failure(feeds[i], known, 0) matches Some(at) ==> !later.contains(
            spec_identity_at(feeds[i], at),
        ));
        lemma_second_run_appends_nothing(to, feeds[i], known, later, now, later_now);
    }
}

/// How far a task is from its end by its state alone.
pub open spec fn spec_rank(task: TaskView) -> nat {
    match task {
        TaskView::Pending => 3,
        TaskView::Fetching => 2,
        TaskView::Appending { .. } => 1,
        TaskView::Done { .. } => 0,
    }
}

/// How many entries a task that is appending has yet to deal with.
pub open spec fn spec_entries_left(task: TaskView) -> nat {
    match task {
        TaskView::Appending { feed, index } => (feed.entries.len() - index) as nat,
        _ => 0,
    }
}

/// Going over the entries from `from` on asks for something, and ends the
/// task or waits for the append of an entry from `from` on.
proof fn lemma_scan_goes_on(
    to: Recipient,
    feed: FeedView,
    known: Set<Seq<char>>,
    now: i64,
    from: int,
)
    requires
        0 <= from <= feed.entries.len(),
    ensures
        spec_scan(to, feed, known, now, from).0.len() > 0,
        match spec_scan(to, feed, known, now, from).1 {
            TaskView::Appending { feed: held, index } => held == feed && from <= index
                < feed.entries.len(),
            TaskView::Done { .. } => true,
            _ => false,
        },
    decreases feed.entries.len() - from,
{
    if from < feed.entries.len() {
        lemma_scan_goes_on(to, feed, known, now, from + 1);
    }
}

/// Every step that asks for something brings the task nearer to its end:
/// from pending to fetching, from there to appending or done, and from one
/// append to a later entry or to done. A step that asks for nothing leaves
/// the task as it was. So a task that is answered each time ends after at
/// most two steps and one more for each entry.
pub proof fn lemma_step_makes_progress(
    to: Recipient,
    task: TaskView,
    event: EventView,
    known: Set<Seq<char>>,
    now: i64,
)
    requires
        spec_reachable(task),
    ensures
        spec_reachable(spec_step(to, task, event, known, now).0),
        spec_step(to, task, event, known, now).1.len() == 0 ==> spec_step(
            to,
            task,
            event,
            known,
            now,
        ).0 == task,
        spec_step(to, task, event, known, now).1.len() > 0 ==> spec_rank(
            spec_step(to, task, event, known, now).0,
        ) < spec_rank(task) || (spec_rank(spec_step(to, task, event, known, now).0) == spec_rank(
            task,
        ) && spec_entries_left(spec_step(to, task, event, known, now).0) < spec_entries_left(
            task,
        )),
{
    match (task, event) {
        (TaskView::Fetching, EventView::Fetched(Ok(feed))) => {
            lemma_scan_goes_on(to, feed, known, now, 0);
        },
        (TaskView::Appending { feed, index }, EventView::Appended(Ok(()))) => {
            lemma_scan_goes_on(to, feed, known, now, index + 1);
        },
        _ => {},
    }
}

/// A task asks for an append only of a message whose identity the snapshot
/// does not hold, as the last thing of a step, and then waits for the answer
/// holding the entry that the message is for.
pub proof fn lemma_step_appends_only_new(
    to: Recipient,
    task: TaskView,
    event: EventView,
    known: Set<Seq<char>>,
    now: i64,
    k: int,
)
    requires
        spec_reachable(task),
        0 <= k < spec_step(to, task, event, known, now).1.len(),
        spec_step(to, task, event, known, now).1[k] is Append,
    ensures
        k == spec_step(to, task, event, known, now).1.len() - 1,
        !known.contains(spec_step(to, task, event, known, now).1[k]->id),
        spec_step(to, task, event, known, now).0 matches TaskView::Appending { feed, index }
            && 0 <= index < feed.entries.len() && spec_step(to, task, event, known, now).1[k]
            == (ActionView::Append {
            id: spec_identity_at(feed, index),
            mail: spec_message(to.name, to.email, feed, feed.entries[index], now)->Ok_0,
        }) && spec_message(to.name, to.email, feed, feed.entries[index], now) is Ok,
{
    match (task, event) {
        (TaskView::Fetching, EventView::Fetched(Ok(feed))) => {
            lemma_scan_appends_last(to, feed, known, now, 0, k - 1);
        },
        (TaskView::Appending { feed, index }, EventView::Appended(Ok(()))) => {
            lemma_scan_appends_last(to, feed, known, now, index + 1, k - 1);
        },
        _ => {},
    }
}

/// Going over the entries asks for an append only as the last thing, and
/// only of the message of a new entry.
proof fn lemma_scan_appends_last(
    to: Recipient,
    feed: FeedView,
    known: Set<Seq<char>>,
    now: i64,
    from: int,
    k: int,
)
    requires
        0 <= from <= feed.entries.len(),
        0 <= k < spec_scan(to, feed, known, now, from).0.len(),
        spec_scan(to, feed, known, now, from).0[k] is Append,
    ensures
        k == spec_scan(to, feed, known, now, from).0.len() - 1,
        !known.contains(spec_scan(to, feed, known, now, from).0[k]->id),
        spec_scan(to, feed, known, now, from).1 matches TaskView::Appending { feed: held, index }
            && held == feed && from <= index < feed.entries.len() && spec_scan(
            to,
            feed,
            known,
            now,
            from,
        ).0[k] == (ActionView::Append {
            id: spec_identity_at(feed, index),
            mail: spec_message(to.name, to.email, feed, feed.entries[index], now)->Ok_0,
        }) && spec_message(to.name, to.email, feed, feed.entries[index], now) is Ok,
    decreases feed.entries.len() - from,
{
    if from < feed.entries.len() {
        match spec_plan(to, feed, feed.entries[from], known, now) {
            EntryPlanView::Skip => {
                lemma_scan_appends_last(to, feed, known, now, from + 1, k - 1);
            },
            _ => {},
        }
    }
}

/// How many entries a list of actions reports as dealt with.
pub open spec fn spec_entry_reports(actions: Seq<ActionView>) -> nat
    decreases actions.len(),
{
    if actions.len() == 0 {
        0
    } else if actions[0] is ReportEntry {
        1 + spec_entry_reports(actions.drop_first())
    } else {
        spec_entry_reports(actions.drop_first())
    }
}

/// How many messages a list of actions appends.
pub open spec fn spec_appends(actions: Seq<ActionView>) -> nat
    decreases actions.len(),
{
    if actions.len() == 0 {
        0
    } else if actions[0] is Append {
        1 + spec_appends(actions.drop_first())
    } else {
        spec_appends(actions.drop_first())
    }
}

/// How many of the entries from `from` up to `to` are new.
pub open spec fn spec_new_entries(feed: FeedView, known: Set<Seq<char>>, from: int, to: int) -> nat
    decreases to - from,
{
    if from >= to {
        0
    } else if known.contains(spec_identity_at(feed, from)) {
        spec_new_entries(feed, known, from + 1, to)
    } else {
        1 + spec_new_entries(feed, known, from + 1, to)
    }
}

proof fn lemma_counts_add(a: Seq<ActionView>, b: Seq<ActionView>)
    ensures
        spec_entry_reports(a + b) == spec_entry_reports(a) + spec_entry_reports(b),
        spec_appends(a + b) == spec_appends(a) + spec_appends(b),
    decreases a.len(),
{
    if a.len() == 0 {
        assert(a + b =~= b);
    } else {
        assert((a + b).drop_first() =~= a.drop_first() + b);
        lemma_counts_add(a.drop_first(), b);
    }
}

proof fn lemma_counts_of_one(action: ActionView)
    ensures
        spec_entry_reports(seq![action]) == if action is ReportEntry {
            1nat
        } else {
            0nat
        },
        spec_appends(seq![action]) == if action is Append {
            1nat
        } else {
            0nat
        },
{
    let one = seq![action];
    let none = Seq::<ActionView>::empty();
    assert(one.drop_first() =~= none);
    assert(spec_entry_reports(none) == 0);
    assert(spec_appends(none) == 0);
}

/// A pass reports every entry that it deals with once, the one that ends it
/// too, and appends one message for each new entry before that one. So where
/// a message can be made of every new entry, each entry of the feed is
/// reported once, and as many messages are appended as entries are new.
pub proof fn lemma_pass_counts(
    to: Recipient,
    feed: FeedView,
    known: Set<Seq<char>>,
    now: i64,
    from: int,
)
    requires
        0 <= from <= feed.entries.len(),
    ensures
        spec_entry_reports(spec_pass(to, feed, known, now, from)) == match spec_first_failure(
            feed,
            known,
            from,
        ) {
            Some(at) => at - from + 1,
            None => feed.entries.len() - from,
        },
        spec_appends(spec_pass(to, feed, known, now, from)) == match spec_first_failure(
            feed,
            known,
            from,
        ) {
            Some(at) => spec_new_entries(feed, known, from, at),
            None => spec_new_entries(feed, known, from, feed.entries.len() as int),
        },
    decreases feed.entries.len() - from,
{
    let report = ActionView::ReportEntry;
    lemma_first_failure_is_failure(feed, known, from);
    lemma_counts_of_one(report);
    if from >= feed.entries.len() {
        lemma_counts_of_one(ActionView::ReportEnd { outcome: Ok(()) });
    } else {
        lemma_pass_counts(to, feed, known, now, from + 1);
        lemma_first_failure_is_failure(feed, known, from + 1);
        let rest = spec_pass(to, feed, known, now, from + 1);
        match spec_plan(to, feed, feed.entries[from], known, now) {
            EntryPlanView::Skip => {
                lemma_counts_add(seq![report], rest);
            },
            EntryPlanView::Append { id, mail } => {
                let asked = ActionView::Append { id, mail };
                lemma_counts_of_one(asked);
                lemma_counts_add(seq![asked], seq![report]);
                assert(seq![asked] + seq![report] =~= seq![asked, report]);
                lemma_counts_add(seq![asked, report], rest);
            },
            EntryPlanView::Fail(e) => {
                let end = ActionView::ReportEnd { outcome: Err(SyncErrorView::Transform(e)) };
                lemma_counts_of_one(end);
                lemma_counts_add(seq![report], seq![end]);
                assert(seq![report] + seq![end] =~= seq![report, end]);
            },
        }
    }
}

} // verus!
