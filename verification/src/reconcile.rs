//! One run of the reconciliation between the published alert level and the
//! level computed afresh.
//!
//! The run is a state machine. The caller does the outside work (reading the
//! status page, fetching pages of edit summaries, submitting the edit) and
//! reports each result as an [`Event`]; [`step`] answers with the next state
//! and the next piece of outside work, an [`Action`].

use crate::level::{level_of, rpm_to_level};
use crate::matcher::Patterns;
use crate::published::{parse_published_level, published_level};
use crate::rate::{
    add_page_count, count_reverts, revert_count, sum_of_page_counts, Rate, INTERVAL_IN_MINS,
};
use crate::report::{page_text, render_page, render_summary, summary_text};
use vstd::prelude::*;

verus! {

/// Why a run ended without a verdict.
#[derive(Clone, Copy, Debug, PartialEq, Eq, Structural)]
pub enum Failure {
    /// The caller reported that a read or the submission failed.
    Source,
    /// The status page states a level that is no number up to 255.
    UnreadableLevel,
    /// More reverts than 64 bits can count.
    TooManyReverts,
    /// An event arrived that the state was not waiting for.
    OutOfTurn,
}

/// How a run ended.
#[derive(Clone, Copy, Debug, PartialEq, Eq, Structural)]
pub enum Outcome {
    /// The published level was up to date; nothing was written.
    Unchanged,
    /// The new level was written.
    Updated,
    Failed(Failure),
}

/// Where a run stands.
#[derive(Clone, Copy, Debug, PartialEq, Eq, Structural)]
pub enum State {
    Idle,
    /// Waiting for the status page.
    ReadingPage,
    /// Waiting for the next page of edit summaries.
    Counting { published: u8, revision_id: u64, reverts: u64 },
    /// Waiting for the submission to go through.
    Submitting,
    Done(Outcome),
}

/// A conditional edit of the status page.
#[derive(Clone, Debug)]
pub struct Edit {
    /// The revision that the page must still have for the edit to apply.
    pub base_revision: u64,
    pub text: String,
    pub summary: String,
}

/// An [`Edit`] with its texts as sequences of characters.
pub struct EditView {
    pub base_revision: u64,
    pub text: Seq<char>,
    pub summary: Seq<char>,
}

impl View for Edit {
    type V = EditView;

    open spec fn view(&self) -> EditView {
        EditView { base_revision: self.base_revision, text: self.text@, summary: self.summary@ }
    }
}

/// What the caller reports back.
#[derive(Clone, Debug)]
pub enum Event {
    Started,
    /// The latest revision of the status page.
    PageRead { revision_id: u64, content: String },
    /// The summaries of one more page of recent edits.
    Comments(Vec<String>),
    /// There are no more pages of recent edits.
    CommentsEnded,
    Submitted,
    /// A read or the submission failed.
    Failed,
}

/// An [`Event`] with its texts as sequences of characters.
pub enum EventView {
    Started,
    PageRead { revision_id: u64, content: Seq<char> },
    Comments(Seq<Seq<char>>),
    CommentsEnded,
    Submitted,
    Failed,
}

impl View for Event {
    type V = EventView;

    open spec fn view(&self) -> EventView {
        match self {
            Event::Started => EventView::Started,
            Event::PageRead { revision_id, content } => EventView::PageRead {
                revision_id: *revision_id,
                content: content@,
            },
            Event::Comments(summaries) => EventView::Comments(summaries.deep_view()),
            Event::CommentsEnded => EventView::CommentsEnded,
            Event::Submitted => EventView::Submitted,
            Event::Failed => EventView::Failed,
        }
    }
}

/// What the caller is to do next.
#[derive(Clone, Debug)]
pub enum Action {
    /// Read the latest revision of the status page.
    ReadPage,
    /// Fix the trailing window now and fetch its first page of summaries.
    OpenComments,
    /// Fetch the next page of summaries of the same window.
    MoreComments,
    /// Submit this edit.
    Submit(Edit),
    /// The run is over.
    Stop,
}

/// An [`Action`] with its texts as sequences of characters.
pub enum ActionView {
    ReadPage,
    OpenComments,
    MoreComments,
    Submit(EditView),
    Stop,
}

impl View for Action {
    type V = ActionView;

    open spec fn view(&self) -> ActionView {
        match self {
            Action::ReadPage => ActionView::ReadPage,
            Action::OpenComments => ActionView::OpenComments,
            Action::MoreComments => ActionView::MoreComments,
            Action::Submit(edit) => ActionView::Submit(edit@),
            Action::Stop => ActionView::Stop,
        }
    }
}

/// The edit that publishes `level`, reached at `reverts / minutes`, on top of
/// revision `revision_id`.
pub open spec fn edit_for(level: nat, revision_id: u64, reverts: nat, minutes: nat) -> EditView {
    EditView {
        base_revision: revision_id,
        text: page_text(level, reverts, minutes),
        summary: summary_text(level, reverts, minutes),
    }
}

/// The edit that a fresh rate calls for: none if its level is the published
/// one, else the edit that publishes the new level.
pub open spec fn planned(published: u8, revision_id: u64, reverts: nat, minutes: nat) -> Option<
    EditView,
> {
    let level = level_of(reverts, minutes);
    if level == published {
        None
    } else {
        Some(edit_for(level, revision_id, reverts, minutes))
    }
}

/// Decides whether the status page needs an edit, and writes it if so.
pub fn plan_update(published: u8, revision_id: u64, rate: Rate) -> (r: Option<Edit>)
    ensures
        r is Some <==> level_of(rate.reverts() as nat, rate.minutes() as nat) != published,
        r matches Some(edit) ==> edit@ == edit_for(
            level_of(rate.reverts() as nat, rate.minutes() as nat),
            revision_id,
            rate.reverts() as nat,
            rate.minutes() as nat,
        ),
        match r {
            Some(edit) => planned(
                published,
                revision_id,
                rate.reverts() as nat,
                rate.minutes() as nat,
            ) == Some(edit@),
            None => planned(published, revision_id, rate.reverts() as nat, rate.minutes() as nat)
                is None,
        },
{
    let level = rpm_to_level(rate);
    if level == published {
        None
    } else {
        Some(
            Edit {
                base_revision: revision_id,
                text: render_page(level, rate),
                summary: render_summary(level, rate),
            },
        )
    }
}

/// The state in which a run has failed.
pub open spec fn failed(why: Failure) -> State {
    State::Done(Outcome::Failed(why))
}

/// The transition of the run: the state after `event` arrived in `state`, and
/// what the caller is to do next.
pub open spec fn next(patterns: Patterns, state: State, event: EventView) -> (State, ActionView) {
    match (state, event) {
        (State::Done(_), _) => (state, ActionView::Stop),
        (_, EventView::Failed) => (failed(Failure::Source), ActionView::Stop),
        (State::Idle, EventView::Started) => (State::ReadingPage, ActionView::ReadPage),
        (State::ReadingPage, EventView::PageRead { revision_id, content }) => {
            match published_level(patterns, content) {
                Some(level) => (
                    State::Counting { published: level as u8, revision_id, reverts: 0 },
                    ActionView::OpenComments,
                ),
                None => (failed(Failure::UnreadableLevel), ActionView::Stop),
            }
        },
        (State::Counting { published, revision_id, reverts }, EventView::Comments(summaries)) => {
            let total = reverts + revert_count(patterns, summaries);
            if total <= u64::MAX {
                (
                    State::Counting { published, revision_id, reverts: total as u64 },
                    ActionView::MoreComments,
                )
            } else {
                (failed(Failure::TooManyReverts), ActionView::Stop)
            }
        },
        (State::Counting { published, revision_id, reverts }, EventView::CommentsEnded) => {
            match planned(published, revision_id, reverts as nat, INTERVAL_IN_MINS as nat) {
                Some(edit) => (State::Submitting, ActionView::Submit(edit)),
                None => (State::Done(Outcome::Unchanged), ActionView::Stop),
            }
        },
        (State::Submitting, EventView::Submitted) => (
            State::Done(Outcome::Updated),
            ActionView::Stop,
        ),
        _ => (failed(Failure::OutOfTurn), ActionView::Stop),
    }
}

/// Takes one step of the run.
pub fn step(patterns: &Patterns, state: State, event: Event) -> (r: (State, Action))
    ensures
        (r.0, r.1@) == next(*patterns, state, event@),
{
    match state {
        State::Done(_) => { return (state, Action::Stop); },
        _ => {},
    }
    match event {
        Event::Failed => { return (State::Done(Outcome::Failed(Failure::Source)), Action::Stop); },
        _ => {},
    }
    match state {
        State::Idle => match event {
            Event::Started => (State::ReadingPage, Action::ReadPage),
            _ => (State::Done(Outcome::Failed(Failure::OutOfTurn)), Action::Stop),
        },
        State::ReadingPage => match event {
            Event::PageRead { revision_id, content } => {
                match parse_published_level(patterns, content.as_str()) {
                    Some(level) => (
                        State::Counting { published: level, revision_id, reverts: 0 },
                        Action::OpenComments,
                    ),
                    None => (State::Done(Outcome::Failed(Failure::UnreadableLevel)), Action::Stop),
                }
            },
            _ => (State::Done(Outcome::Failed(Failure::OutOfTurn)), Action::Stop),
        },
        State::Counting { published, revision_id, reverts } => match event {
            Event::Comments(summaries) => {
                let count = count_reverts(patterns, &summaries);
                match add_page_count(reverts, count) {
                    Some(total) => (
                        State::Counting { published, revision_id, reverts: total },
                        Action::MoreComments,
                    ),
                    None => (State::Done(Outcome::Failed(Failure::TooManyReverts)), Action::Stop),
                }
            },
            Event::CommentsEnded => {
                match plan_update(published, revision_id, Rate::over_interval(reverts)) {
                    Some(edit) => (State::Submitting, Action::Submit(edit)),
                    None => (State::Done(Outcome::Unchanged), Action::Stop),
                }
            },
            _ => (State::Done(Outcome::Failed(Failure::OutOfTurn)), Action::Stop),
        },
        State::Submitting => match event {
            Event::Submitted => (State::Done(Outcome::Updated), Action::Stop),
            _ => (State::Done(Outcome::Failed(Failure::OutOfTurn)), Action::Stop),
        },
        State::Done(_) => (state, Action::Stop),
    }
}

/// The run that starts in `state` and then sees `events` one after the other:
/// the state it reaches, and the actions it hands out on the way.
pub open spec fn run_from(patterns: Patterns, state: State, events: Seq<EventView>) -> (
    State,
    Seq<ActionView>,
)
    decreases events.len(),
{
    if events.len() == 0 {
        (state, Seq::empty())
    } else {
        let (before, actions) = run_from(patterns, state, events.drop_last());
        let (after, action) = next(patterns, before, events.last());
        (after, actions.push(action))
    }
}

/// The run that starts idle.
pub open spec fn run(patterns: Patterns, events: Seq<EventView>) -> (State, Seq<ActionView>) {
    run_from(patterns, State::Idle, events)
}

/// The test that an action is a submission, as a predicate.
pub open spec fn is_submit() -> spec_fn(ActionView) -> bool {
    |action: ActionView| action is Submit
}

/// How many submissions there are among `actions`.
pub open spec fn submits(actions: Seq<ActionView>) -> nat {
    actions.filter(is_submit()).len()
}

/// The test that an action is the reading of the status page.
pub open spec fn is_read() -> spec_fn(ActionView) -> bool {
    |action: ActionView| action is ReadPage
}

/// The test that an action opens the window of summaries.
pub open spec fn is_opening() -> spec_fn(ActionView) -> bool {
    |action: ActionView| action is OpenComments
}

/// How often `actions` ask for the status page.
pub open spec fn reads(actions: Seq<ActionView>) -> nat {
    actions.filter(is_read()).len()
}

/// How often `actions` open a window of summaries.
pub open spec fn openings(actions: Seq<ActionView>) -> nat {
    actions.filter(is_opening()).len()
}

/// The events that report the pages of summaries, one event per page.
pub open spec fn comment_events(pages: Seq<Seq<Seq<char>>>) -> Seq<EventView> {
    Seq::new(pages.len(), |i: int| EventView::Comments(pages[i]))
}

/// The events of a run in which every read succeeds: the start, the status
/// page, each page of summaries, and the end of the pages.
pub open spec fn reading_events(revision_id: u64, content: Seq<char>, pages: Seq<Seq<Seq<char>>>) -> Seq<
    EventView,
> {
    seq![EventView::Started, EventView::PageRead { revision_id, content }] + comment_events(pages)
        + seq![EventView::CommentsEnded]
}

/// No write without change: when the summaries have all been counted and the
/// level of the fresh rate is the published one, the run ends at once and
/// asks for no submission.
pub proof fn lemma_unchanged_level_writes_nothing(
    patterns: Patterns,
    published: u8,
    revision_id: u64,
    reverts: u64,
)
    requires
        level_of(reverts as nat, INTERVAL_IN_MINS as nat) == published,
    ensures
        next(
            patterns,
            State::Counting { published, revision_id, reverts },
            EventView::CommentsEnded,
        ) == (State::Done(Outcome::Unchanged), ActionView::Stop),
{
}

/// A changed level is written: when the level of the fresh rate differs from
/// the published one, the run asks for the edit that publishes the new level
/// on top of the revision that was read.
pub proof fn lemma_changed_level_is_submitted(
    patterns: Patterns,
    published: u8,
    revision_id: u64,
    reverts: u64,
)
    requires
        level_of(reverts as nat, INTERVAL_IN_MINS as nat) != published,
    ensures
        next(
            patterns,
            State::Counting { published, revision_id, reverts },
            EventView::CommentsEnded,
        ) == (
            State::Submitting,
            ActionView::Submit(
                edit_for(
                    level_of(reverts as nat, INTERVAL_IN_MINS as nat),
                    revision_id,
                    reverts as nat,
                    INTERVAL_IN_MINS as nat,
                ),
            ),
        ),
{
}

/// A page that states no level is always overwritten: the unknown level is
/// none of the levels that a rate can have.
pub proof fn lemma_unknown_level_is_overwritten(patterns: Patterns, revision_id: u64, reverts: u64)
    ensures
        next(
            patterns,
            State::Counting { published: 0, revision_id, reverts },
            EventView::CommentsEnded,
        ).0 == State::Submitting,
        next(
            patterns,
            State::Counting { published: 0, revision_id, reverts },
            EventView::CommentsEnded,
        ).1 is Submit,
{
}

/// A submission is only ever asked for at the end of the pages of summaries,
/// and it publishes the level of the rate counted in this very run, guarded
/// by the revision read in this very run.
pub proof fn lemma_submission_is_fresh(patterns: Patterns, state: State, event: EventView)
    requires
        next(patterns, state, event).1 is Submit,
    ensures
        event is CommentsEnded,
        state matches State::Counting { published, revision_id, reverts } && {
            let level = level_of(reverts as nat, INTERVAL_IN_MINS as nat);
            &&& level != published
            &&& next(patterns, state, event).1 == ActionView::Submit(
                edit_for(level, revision_id, reverts as nat, INTERVAL_IN_MINS as nat),
            )
        },
{
}

/// A run that is over stays over, and asks for nothing more.
pub proof fn lemma_done_is_final(patterns: Patterns, outcome: Outcome, event: EventView)
    ensures
        next(patterns, State::Done(outcome), event) == (State::Done(outcome), ActionView::Stop),
{
}

/// Any failure that the caller reports ends a run that is not yet over, with
/// nothing written after it.
pub proof fn lemma_failure_ends_run(patterns: Patterns, state: State)
    requires
        !(state is Done),
    ensures
        next(patterns, state, EventView::Failed) == (failed(Failure::Source), ActionView::Stop),
{
}

/// Whatever events arrive, a run asks for at most one submission: for none
/// before the summaries are counted or when the level is unchanged, and for
/// exactly one when it went on to submit.
pub proof fn lemma_at_most_one_submission(patterns: Patterns, events: Seq<EventView>)
    ensures
        submits(run(patterns, events).1) <= 1,
        run(patterns, events).1.len() == events.len(),
        match run(patterns, events).0 {
            State::Idle | State::ReadingPage | State::Counting { .. } => submits(
                run(patterns, events).1,
            ) == 0,
            State::Submitting => submits(run(patterns, events).1) == 1,
            State::Done(Outcome::Unchanged) => submits(run(patterns, events).1) == 0,
            State::Done(Outcome::Updated) => submits(run(patterns, events).1) == 1,
            State::Done(Outcome::Failed(_)) => true,
        },
    decreases events.len(),
{
    if events.len() == 0 {
        Seq::<ActionView>::empty().lemma_filter_len(is_submit());
    } else {
        lemma_at_most_one_submission(patterns, events.drop_last());
        let (before, actions) = run(patterns, events.drop_last());
        let (after, action) = next(patterns, before, events.last());
        actions.lemma_filter_push(action, is_submit());
    }
}

/// Whatever events arrive, a run reads the status page at most once and
/// opens the window of summaries at most once: the window is fixed when the
/// first page of summaries is asked for, and never again for a later page.
pub proof fn lemma_read_and_opened_once(patterns: Patterns, events: Seq<EventView>)
    ensures
        reads(run(patterns, events).1) <= 1,
        openings(run(patterns, events).1) <= 1,
        run(patterns, events).0 is Idle ==> reads(run(patterns, events).1) == 0,
        run(patterns, events).0 is Idle || run(patterns, events).0 is ReadingPage ==> openings(
            run(patterns, events).1,
        ) == 0,
    decreases events.len(),
{
    if events.len() == 0 {
        Seq::<ActionView>::empty().lemma_filter_len(is_read());
        Seq::<ActionView>::empty().lemma_filter_len(is_opening());
    } else {
        lemma_read_and_opened_once(patterns, events.drop_last());
        let (before, actions) = run(patterns, events.drop_last());
        let (after, action) = next(patterns, before, events.last());
        actions.lemma_filter_push(action, is_read());
        actions.lemma_filter_push(action, is_opening());
    }
}

/// Counting is complete over pages: after the status page, each further page
/// of summaries adds its reverts to the count, so that after all pages the
/// count is the sum over every page.
pub proof fn lemma_counting_is_complete(
    patterns: Patterns,
    revision_id: u64,
    content: Seq<char>,
    pages: Seq<Seq<Seq<char>>>,
)
    requires
        published_level(patterns, content) is Some,
        sum_of_page_counts(patterns, pages) <= u64::MAX,
    ensures
        run(
            patterns,
            seq![EventView::Started, EventView::PageRead { revision_id, content }] + comment_events(
                pages,
            ),
        ).0 == (State::Counting {
            published: published_level(patterns, content)->0 as u8,
            revision_id,
            reverts: sum_of_page_counts(patterns, pages) as u64,
        }),
    decreases pages.len(),
{
    let head = seq![EventView::Started, EventView::PageRead { revision_id, content }];
    if pages.len() == 0 {
        assert(head + comment_events(pages) =~= head);
        assert(head.drop_last() =~= seq![EventView::Started]);
        assert(head.drop_last().drop_last() =~= Seq::<EventView>::empty());
        reveal_with_fuel(run_from, 3);
    } else {
        let fewer = pages.drop_last();
        crate::rate::lemma_page_sum_grows(patterns, pages, pages.len() - 1);
        assert(pages.take(pages.len() - 1) =~= fewer);
        lemma_counting_is_complete(patterns, revision_id, content, fewer);
        let events = head + comment_events(pages);
        assert(events.drop_last() =~= head + comment_events(fewer));
        assert(events.last() == EventView::Comments(pages.last()));
    }
}

/// A run in which every read succeeds ends well for every number of pages:
/// it writes nothing if the level of the rate over all summaries of all
/// pages is the published one, and else asks for exactly one submission, of
/// the edit that publishes that level.
pub proof fn lemma_run_reconciles(
    patterns: Patterns,
    revision_id: u64,
    content: Seq<char>,
    pages: Seq<Seq<Seq<char>>>,
)
    requires
        published_level(patterns, content) is Some,
        revert_count(patterns, pages.flatten()) <= u64::MAX,
    ensures
        ({
            let published = published_level(patterns, content)->0;
            let reverts = revert_count(patterns, pages.flatten());
            let level = level_of(reverts, INTERVAL_IN_MINS as nat);
            let (state, actions) = run(patterns, reading_events(revision_id, content, pages));
            if level == published {
                &&& state == State::Done(Outcome::Unchanged)
                &&& actions.last() == ActionView::Stop
                &&& submits(actions) == 0
            } else {
                &&& state == State::Submitting
                &&& actions.last() == ActionView::Submit(
                    edit_for(level, revision_id, reverts, INTERVAL_IN_MINS as nat),
                )
                &&& submits(actions) == 1
            }
        }),
{
    crate::rate::lemma_pages_complete(patterns, pages);
    lemma_counting_is_complete(patterns, revision_id, content, pages);
    let events = reading_events(revision_id, content, pages);
    let counted = seq![EventView::Started, EventView::PageRead { revision_id, content }]
        + comment_events(pages);
    assert(events.drop_last() =~= counted);
    assert(events.last() == EventView::CommentsEnded);
    lemma_at_most_one_submission(patterns, events);
}

/// A status page that states no level is written exactly once: whatever
/// the summaries hold, a run in which every read succeeds asks for one
/// submission, and for no second one once that went through.
pub proof fn lemma_page_without_level_is_written_once(
    patterns: Patterns,
    revision_id: u64,
    content: Seq<char>,
    pages: Seq<Seq<Seq<char>>>,
)
    requires
        published_level(patterns, content) == Some(0nat),
        revert_count(patterns, pages.flatten()) <= u64::MAX,
    ensures
        run(patterns, reading_events(revision_id, content, pages)).0 == State::Submitting,
        submits(run(patterns, reading_events(revision_id, content, pages)).1) == 1,
        run(
            patterns,
            reading_events(revision_id, content, pages).push(EventView::Submitted),
        ).0 == State::Done(Outcome::Updated),
        submits(
            run(patterns, reading_events(revision_id, content, pages).push(EventView::Submitted)).1,
        ) == 1,
{
    lemma_run_reconciles(patterns, revision_id, content, pages);
    let events = reading_events(revision_id, content, pages);
    assert(events.push(EventView::Submitted).drop_last() =~= events);
    lemma_at_most_one_submission(patterns, events.push(EventView::Submitted));
}

} // verus!
