//! Whole builds: what a build does over a sequence of replies.
//!
//! The functions here describe a build from its first request to its last,
//! and the lemmas state what holds of every build: that nothing is done
//! after the first failure, that other files are passed over, that a
//! directory is created before a page is written into it, and what a build
//! asks for when everything succeeds.

use crate::classify::classification;
use crate::command::trace_of;
use crate::dispatch::{
    command_of, dependency_of, initial, next, pending, planned, report, BuildError, JobView,
    Phase, ReplyView, RequestView, State, StepView,
};
use vstd::prelude::*;

verus! {

/// The build that `state` has become once the replies of `replies` have come
/// in, in order.
pub open spec fn run(state: State, replies: Seq<ReplyView>) -> State
    decreases replies.len(),
{
    if replies.len() == 0 {
        state
    } else {
        next(run(state, replies.drop_last()), replies.last())
    }
}

/// What the build answers to the reply at `index` of `replies`: the line
/// to print and the next request.
pub open spec fn step_at(state: State, replies: Seq<ReplyView>, index: int) -> StepView {
    StepView {
        report: report(run(state, replies.take(index)), replies[index]),
        request: pending(run(state, replies.take(index + 1))),
    }
}

/// What the build answers to each of `replies`, in order.
pub open spec fn steps(state: State, replies: Seq<ReplyView>) -> Seq<StepView> {
    Seq::new(replies.len(), |index: int| step_at(state, replies, index))
}

/// A build over one reply is one step.
pub proof fn lemma_run_one(state: State, reply: ReplyView)
    ensures
        run(state, seq![reply]) == next(state, reply),
{
    assert(seq![reply].drop_last() =~= Seq::<ReplyView>::empty());
    assert(run(state, seq![reply].drop_last()) == state);
}

/// A build over `first` and then `second` is the build over `second` of
/// what the build over `first` has left.
pub proof fn lemma_run_concat(state: State, first: Seq<ReplyView>, second: Seq<ReplyView>)
    ensures
        run(state, first + second) == run(run(state, first), second),
    decreases second.len(),
{
    if second.len() == 0 {
        assert(first + second =~= first);
    } else {
        assert((first + second).drop_last() =~= first + second.drop_last());
        assert((first + second).last() == second.last());
        lemma_run_concat(state, first, second.drop_last());
    }
}

/// A build writes below the same destination from beginning to end.
pub proof fn lemma_run_keeps_destination(state: State, replies: Seq<ReplyView>)
    ensures
        run(state, replies).destination == state.destination,
    decreases replies.len(),
{
    if replies.len() > 0 {
        lemma_run_keeps_destination(state, replies.drop_last());
    }
}

/// A build that has ended stays as it is, whatever is reported to it: it
/// asks for nothing further and keeps its result.
pub proof fn lemma_ended_build_stays(state: State, replies: Seq<ReplyView>)
    requires
        state.phase is Finished,
    ensures
        run(state, replies) == state,
    decreases replies.len(),
{
    if replies.len() > 0 {
        lemma_ended_build_stays(state, replies.drop_last());
    }
}

/// The error that ends a build when what it waits for in `phase` fails.
pub open spec fn failure_of(phase: Phase) -> BuildError {
    match phase {
        Phase::Creating(_) => BuildError::Directory,
        Phase::Converting(_) => BuildError::Command,
        _ => BuildError::Scan,
    }
}

/// The first failure ends the build. Whatever a build that has not ended
/// waits for, if that fails the build ends with the error of what failed,
/// and no later reply brings it to do anything more.
pub proof fn lemma_failure_ends_build(state: State, later: Seq<ReplyView>)
    requires
        !(state.phase is Finished),
    ensures
        run(state, seq![ReplyView::Failed] + later).phase == Phase::Finished(
            Err(failure_of(state.phase)),
        ),
        pending(run(state, seq![ReplyView::Failed] + later)) == RequestView::Finish(
            Err(failure_of(state.phase)),
        ),
{
    let failed = seq![ReplyView::Failed];
    lemma_run_one(state, ReplyView::Failed);
    lemma_run_concat(state, failed, later);
    lemma_ended_build_stays(run(state, failed), later);
}

/// A file that is no documentation source is passed over: the build goes
/// on to the next entry, prints nothing, and does not fail.
pub proof fn lemma_other_file_skipped(state: State, path: Seq<char>, name: Seq<char>)
    requires
        state.phase is Scanning,
        classification(name) is None,
    ensures
        next(state, ReplyView::Entry { path, name }) == state,
        report(state, ReplyView::Entry { path, name }) is None,
        pending(next(state, ReplyView::Entry { path, name })) == RequestView::ReadEntry,
{
}

/// Whether, in the build into `destination` over `replies`, the reply at
/// `index` is an entry for which `job` was planned.
pub open spec fn planned_at(
    destination: Seq<char>,
    replies: Seq<ReplyView>,
    job: JobView,
    index: int,
) -> bool {
    &&& 0 <= index < replies.len()
    &&& run(initial(destination), replies.take(index)).phase is Scanning
    &&& replies[index] matches ReplyView::Entry { path, name }
    &&& planned(destination, path, name) == Some(job)
}

/// Whether, in the build into `destination` over `replies`, the reply at
/// `index` reports that the directory of `job` has been created.
pub open spec fn created_at(
    destination: Seq<char>,
    replies: Seq<ReplyView>,
    job: JobView,
    index: int,
) -> bool {
    &&& 0 <= index < replies.len()
    &&& run(initial(destination), replies.take(index)).phase == Phase::Creating(job)
    &&& pending(run(initial(destination), replies.take(index))) == RequestView::CreateDirectory(
        job.directory,
    )
    &&& replies[index] == ReplyView::Done
}

/// A build works only on what it has found: whenever it has a conversion
/// in hand, an entry of the source directory was reported for which that
/// conversion is the planned one.
pub proof fn lemma_job_was_planned(destination: Seq<char>, replies: Seq<ReplyView>, job: JobView)
    requires
        run(initial(destination), replies).phase == Phase::Creating(job) || run(
            initial(destination),
            replies,
        ).phase == Phase::Converting(job),
    ensures
        exists|index: int| planned_at(destination, replies, job, index),
    decreases replies.len(),
{
    let before = replies.drop_last();
    let last = replies.len() - 1;
    let held = run(initial(destination), before);
    if replies.len() == 0 {
    } else if held.phase == Phase::Creating(job) || held.phase == Phase::Converting(job) {
        lemma_job_was_planned(destination, before, job);
        let index = choose|index: int| planned_at(destination, before, job, index);
        assert(replies.take(index) =~= before.take(index));
        assert(planned_at(destination, replies, job, index));
    } else {
        assert(replies.take(last) =~= before);
        lemma_run_keeps_destination(initial(destination), before);
        assert(planned_at(destination, replies, job, last));
    }
}

/// A page is written only into a directory that exists: whenever a build
/// waits for a conversion, it has asked for the directory of that
/// conversion before, and that was reported done.
pub proof fn lemma_directory_before_conversion(
    destination: Seq<char>,
    replies: Seq<ReplyView>,
    job: JobView,
)
    requires
        run(initial(destination), replies).phase == Phase::Converting(job),
    ensures
        exists|index: int| created_at(destination, replies, job, index),
    decreases replies.len(),
{
    let before = replies.drop_last();
    let last = replies.len() - 1;
    let held = run(initial(destination), before);
    if replies.len() == 0 {
    } else if held.phase == Phase::Converting(job) {
        lemma_directory_before_conversion(destination, before, job);
        let index = choose|index: int| created_at(destination, before, job, index);
        assert(replies.take(index) =~= before.take(index));
        assert(created_at(destination, replies, job, index));
    } else {
        assert(replies.take(last) =~= before);
        assert(created_at(destination, replies, job, last));
    }
}

/// A file of the source directory: its path and its name.
pub struct Listed {
    pub path: Seq<char>,
    pub name: Seq<char>,
}

/// What is reported for `entry` in a build into `destination` in which
/// nothing fails: the entry itself and, if it is a documentation source,
/// that its directory was created and that its conversion succeeded.
pub open spec fn replies_for(destination: Seq<char>, entry: Listed) -> Seq<ReplyView> {
    let found = ReplyView::Entry { path: entry.path, name: entry.name };
    if planned(destination, entry.path, entry.name) is Some {
        seq![found, ReplyView::Done, ReplyView::Done]
    } else {
        seq![found]
    }
}

/// What a build into `destination` answers while it deals with `entry` and
/// nothing fails. For a documentation source it asks for the directory of
/// the section, then announces and asks for the conversion, then declares
/// the dependency on the source and asks for the next entry. For any other
/// file it asks for the next entry at once.
pub open spec fn steps_for(destination: Seq<char>, entry: Listed) -> Seq<StepView> {
    match planned(destination, entry.path, entry.name) {
        Some(job) => seq![
            StepView { report: None, request: RequestView::CreateDirectory(job.directory) },
            StepView {
                report: Some(trace_of(command_of(job))),
                request: RequestView::Run(command_of(job)),
            },
            StepView { report: Some(dependency_of(job.input)), request: RequestView::ReadEntry },
        ],
        None => seq![StepView { report: None, request: RequestView::ReadEntry }],
    }
}

/// What is reported in a build into `destination` that finds `entries`, in
/// this order, and in which nothing fails, up to the end of the directory.
pub open spec fn smooth_replies(destination: Seq<char>, entries: Seq<Listed>) -> Seq<ReplyView>
    decreases entries.len(),
{
    if entries.len() == 0 {
        Seq::empty()
    } else {
        smooth_replies(destination, entries.drop_last()) + replies_for(
            destination,
            entries.last(),
        )
    }
}

/// What a build into `destination` answers while it deals with `entries`,
/// in this order, and nothing fails.
pub open spec fn smooth_steps(destination: Seq<char>, entries: Seq<Listed>) -> Seq<StepView>
    decreases entries.len(),
{
    if entries.len() == 0 {
        Seq::empty()
    } else {
        smooth_steps(destination, entries.drop_last()) + steps_for(destination, entries.last())
    }
}

/// The answers to `first` and then `second` are the answers to `first`
/// followed by the answers that the build left by `first` gives to `second`.
pub proof fn lemma_steps_concat(state: State, first: Seq<ReplyView>, second: Seq<ReplyView>)
    ensures
        steps(state, first + second) == steps(state, first) + steps(run(state, first), second),
{
    let all = first + second;
    let split = first.len() as int;
    assert forall|index: int| 0 <= index < all.len() implies steps(state, all)[index] == (steps(
        state,
        first,
    ) + steps(run(state, first), second))[index] by {
        if index < split {
            assert(all.take(index) =~= first.take(index));
            assert(all.take(index + 1) =~= first.take(index + 1));
        } else {
            assert(all.take(index) =~= first + second.take(index - split));
            assert(all.take(index + 1) =~= first + second.take(index - split + 1));
            lemma_run_concat(state, first, second.take(index - split));
            lemma_run_concat(state, first, second.take(index - split + 1));
        }
    }
    assert(steps(state, all) =~= steps(state, first) + steps(run(state, first), second));
}

/// Dealing with one entry without failure: the build is left waiting for
/// the next entry, and has answered as described.
pub proof fn lemma_smooth_entry(state: State, entry: Listed)
    requires
        state.phase is Scanning,
    ensures
        run(state, replies_for(state.destination, entry)) == state,
        steps(state, replies_for(state.destination, entry)) == steps_for(
            state.destination,
            entry,
        ),
{
    let replies = replies_for(state.destination, entry);
    let found = ReplyView::Entry { path: entry.path, name: entry.name };
    assert(replies.take(0) =~= Seq::<ReplyView>::empty());
    assert(replies.take(1) =~= seq![found]);
    lemma_run_one(state, found);
    match planned(state.destination, entry.path, entry.name) {
        Some(job) => {
            let created = seq![found, ReplyView::Done];
            assert(replies.take(2) =~= created);
            assert(replies.take(3) =~= replies);
            assert(created.drop_last() =~= seq![found]);
            assert(replies.drop_last() =~= created);
            assert(run(state, created).phase == Phase::Converting(job));
            assert(run(state, replies).phase is Scanning);
        },
        None => {
            assert(replies =~= seq![found]);
        },
    }
    assert(steps(state, replies) =~= steps_for(state.destination, entry));
}

/// A build in which nothing fails converts every documentation source and
/// then ends well. Over the entries of the source directory, in the order
/// in which they are found, it asks for the directory and the conversion of
/// each source in turn, passes over the other files, and when the directory
/// has no further entry it ends with success.
pub proof fn lemma_smooth_build(destination: Seq<char>, entries: Seq<Listed>)
    ensures
        run(initial(destination), smooth_replies(destination, entries)) == initial(destination),
        steps(initial(destination), smooth_replies(destination, entries)) == smooth_steps(
            destination,
            entries,
        ),
        run(initial(destination), smooth_replies(destination, entries) + seq![ReplyView::End])
            == (State { destination, phase: Phase::Finished(Ok(())) }),
        steps(initial(destination), smooth_replies(destination, entries) + seq![ReplyView::End])
            == smooth_steps(destination, entries) + seq![
            StepView { report: None, request: RequestView::Finish(Ok(())) },
        ],
    decreases entries.len(),
{
    let start = initial(destination);
    let replies = smooth_replies(destination, entries);
    if entries.len() == 0 {
        assert(steps(start, replies) =~= smooth_steps(destination, entries));
    } else {
        let before = smooth_replies(destination, entries.drop_last());
        let for_last = replies_for(destination, entries.last());
        lemma_smooth_build(destination, entries.drop_last());
        lemma_run_concat(start, before, for_last);
        lemma_steps_concat(start, before, for_last);
        lemma_smooth_entry(start, entries.last());
    }
    let end = seq![ReplyView::End];
    lemma_run_concat(start, replies, end);
    lemma_steps_concat(start, replies, end);
    lemma_run_one(start, ReplyView::End);
    assert(end.take(0) =~= Seq::<ReplyView>::empty());
    assert(end.take(1) =~= end);
    assert(steps(start, end) =~= seq![
        StepView { report: None, request: RequestView::Finish(Ok(())) },
    ]);
}

} // verus!
