//! Records how far an account has listened to an episode.
//!
//! The mediator decides what is written and what the store's outcome means.
//! A caller with a database runs [`Mediator::start`] and
//! [`Mediator::resume`] inside one transaction; [`Mediator::run`] does the
//! same against the table held in memory.

use vstd::pervasive::unreached;
use vstd::prelude::*;

use crate::errors::{Error, ErrorKindView, ErrorView};
use crate::model::insertable;
use crate::model::{AccountPodcast, AccountPodcastEpisode, Episode};
use crate::store::{AccountPodcastEpisodeTable, Failure, Progress};

verus! {

/// One record of listen progress: of the subscription `account_podcast`, for
/// `episode`.
pub struct Mediator<'a> {
    pub account_podcast: &'a AccountPodcast,
    pub episode: &'a Episode,
    pub listened_seconds: Option<i64>,
    pub played: bool,
}

/// What a run leaves behind: the progress row as it stands.
#[derive(Debug, Clone, Copy, PartialEq, Eq)]
pub struct RunResult {
    pub account_podcast_episode: AccountPodcastEpisode,
}

/// A statement for the store.
#[derive(Debug, Clone, Copy, PartialEq, Eq)]
pub enum Statement {
    /// Insert these values; where a row of the same subscription and episode
    /// exists, overwrite its seconds listened and its played flag with those
    /// given here.
    Upsert(insertable::AccountPodcastEpisode),
}

impl Statement {
    /// The error that a failure of this statement with the given diagnostic
    /// turns into: an internal one, with the statement's context attached.
    pub open spec fn failure(self, diagnostic: Seq<char>) -> ErrorView {
        ErrorView::plain(ErrorKindView::Internal(diagnostic)).chained(
            "Error upserting account podcast episode"@,
        )
    }

    fn fail(&self, diagnostic: String) -> (error: Error)
        ensures
            error@ == self.failure(diagnostic@),
    {
        Error::internal(diagnostic.as_str()).chain_err("Error upserting account podcast episode")
    }
}

/// What the store answered to a statement.
#[derive(Debug, Clone, PartialEq, Eq)]
pub enum Outcome {
    /// The row as it stands after the upsert.
    Row(AccountPodcastEpisode),
    /// The statement failed; the store's diagnostic.
    Failed(String),
}

/// The mathematical content of an [`Outcome`].
pub enum OutcomeView {
    Row(AccountPodcastEpisode),
    Failed(Seq<char>),
}

impl View for Outcome {
    type V = OutcomeView;

    open spec fn view(&self) -> OutcomeView {
        match *self {
            Outcome::Row(row) => OutcomeView::Row(row),
            Outcome::Failed(diagnostic) => OutcomeView::Failed(diagnostic@),
        }
    }
}

/// What is to happen next in the transaction.
#[derive(Debug, Clone, PartialEq, Eq)]
pub enum Step {
    /// Carry out this statement and come back with its outcome.
    Execute(Statement),
    /// Commit; the run has this result.
    Commit(RunResult),
    /// Roll back; the run has failed with this error.
    Rollback(Error),
}

/// The mathematical content of a [`Step`].
pub enum StepView {
    Execute(Statement),
    Commit(RunResult),
    Rollback(ErrorView),
}

impl View for Step {
    type V = StepView;

    open spec fn view(&self) -> StepView {
        match *self {
            Step::Execute(statement) => StepView::Execute(statement),
            Step::Commit(result) => StepView::Commit(result),
            Step::Rollback(error) => StepView::Rollback(error@),
        }
    }
}

/// The step that follows when `asked` was carried out with `outcome`: the
/// row that came back is the result, and a failure rolls back.
pub open spec fn following_step(asked: Statement, outcome: OutcomeView) -> StepView {
    match outcome {
        OutcomeView::Row(row) => StepView::Commit(RunResult { account_podcast_episode: row }),
        OutcomeView::Failed(diagnostic) => StepView::Rollback(asked.failure(diagnostic)),
    }
}

/// What the table held in memory answers to a statement, and how it stands
/// afterwards.
pub open spec fn executed(table: Progress, statement: Statement) -> (Progress, OutcomeView) {
    match statement {
        Statement::Upsert(values) => (
            table.upsert(values),
            if table.can_upsert(values) {
                OutcomeView::Row(table.upserted_row(values))
            } else {
                OutcomeView::Failed(Failure::SequenceExhausted.text())
            },
        ),
    }
}

/// A whole record of progress on the table held in memory: the table
/// afterwards and the result of the run.
///
/// The row of the subscription and the episode is upserted: a row that
/// exists keeps its id and takes the values given, whatever it held before;
/// a missing row is inserted. A run that fails leaves the table as it was.
pub open spec fn recorded(table: Progress, values: insertable::AccountPodcastEpisode) -> (
    Progress,
    Result<RunResult, ErrorView>,
) {
    if table.can_upsert(values) {
        (table.upsert(values), Ok(RunResult { account_podcast_episode: table.upserted_row(values) }))
    } else {
        (table, Err(Statement::Upsert(values).failure(Failure::SequenceExhausted.text())))
    }
}

/// Whether `result` is what `expected` says, the error taken by its content.
pub open spec fn result_is(result: Result<RunResult, Error>, expected: Result<RunResult, ErrorView>)
    -> bool {
    match result {
        Ok(run) => expected == Ok::<RunResult, ErrorView>(run),
        Err(error) => expected == Err::<RunResult, ErrorView>(error@),
    }
}

/// Carries out a statement on the table held in memory.
pub fn execute(table: &mut AccountPodcastEpisodeTable, statement: &Statement) -> (outcome: Outcome)
    ensures
        final(table)@ == executed(old(table)@, *statement).0,
        outcome@ == executed(old(table)@, *statement).1,
{
    match statement {
        Statement::Upsert(values) => match table.upsert(values) {
            Ok(row) => Outcome::Row(row),
            Err(failure) => Outcome::Failed(failure.message()),
        },
    }
}

impl<'a> Mediator<'a> {
    /// The values that this mediator writes.
    pub open spec fn values(&self) -> insertable::AccountPodcastEpisode {
        insertable::AccountPodcastEpisode {
            account_podcast_id: self.account_podcast.id,
            episode_id: self.episode.id,
            listened_seconds: self.listened_seconds,
            played: self.played,
        }
    }

    /// The first step of the transaction: the upsert of the values.
    pub fn start(&self) -> (step: Step)
        ensures
            step@ == StepView::Execute(Statement::Upsert(self.values())),
    {
        Step::Execute(
            Statement::Upsert(
                insertable::AccountPodcastEpisode {
                    account_podcast_id: self.account_podcast.id,
                    episode_id: self.episode.id,
                    listened_seconds: self.listened_seconds,
                    played: self.played,
                },
            ),
        )
    }

    /// The step that follows when the statement `asked` had `outcome`.
    pub fn resume(&self, asked: &Statement, outcome: Outcome) -> (step: Step)
        ensures
            step@ == following_step(*asked, outcome@),
    {
        match outcome {
            Outcome::Row(row) => Step::Commit(RunResult { account_podcast_episode: row }),
            Outcome::Failed(diagnostic) => Step::Rollback(asked.fail(diagnostic)),
        }
    }

    /// Records the progress in the table held in memory.
    pub fn run(&self, table: &mut AccountPodcastEpisodeTable) -> (result: Result<RunResult, Error>)
        ensures
            final(table)@ == recorded(old(table)@, self.values()).0,
            result_is(result, recorded(old(table)@, self.values()).1),
    {
        match self.start() {
            Step::Execute(statement) => {
                let outcome = execute(table, &statement);
                match self.resume(&statement, outcome) {
                    Step::Execute(_) => unreached(),
                    Step::Commit(run) => Ok(run),
                    Step::Rollback(error) => Err(error),
                }
            },
            Step::Commit(run) => Ok(run),
            Step::Rollback(error) => Err(error),
        }
    }
}

/// Recording progress keeps the table well-formed.
pub proof fn lemma_recorded_keeps_wf(table: Progress, values: insertable::AccountPodcastEpisode)
    requires
        table.wf(),
    ensures
        recorded(table, values).0.wf(),
{
    table.lemma_upsert(values);
}

/// Recording progress for an episode that the subscription has no row for
/// creates exactly one row, which holds the values given; every row that was
/// there before stays as it was.
pub proof fn lemma_first_record_creates_one_row(
    table: Progress,
    values: insertable::AccountPodcastEpisode,
)
    requires
        table.wf(),
        !table.has(values.account_podcast_id, values.episode_id),
        recorded(table, values).1 is Ok,
    ensures
        ({
            let (after, result) = recorded(table, values);
            let row = result->Ok_0.account_podcast_episode;
            &&& after.rows.len() == table.rows.len() + 1
            &&& after.rows == table.rows.push(row)
            &&& after.find(values.account_podcast_id, values.episode_id) == Some(row)
            &&& row.listened_seconds == values.listened_seconds
            &&& row.played == values.played
        }),
{
    table.lemma_upsert(values);
}

/// Recording progress again for the same subscription and episode updates
/// the row that exists and creates none: the second run succeeds, the row
/// keeps its id, holds the values given last, and the table has as many rows
/// as after the first run.
pub proof fn lemma_second_record_updates_the_row(
    table: Progress,
    first: insertable::AccountPodcastEpisode,
    second: insertable::AccountPodcastEpisode,
)
    requires
        table.wf(),
        first.account_podcast_id == second.account_podcast_id,
        first.episode_id == second.episode_id,
        recorded(table, first).1 is Ok,
    ensures
        ({
            let (once, first_result) = recorded(table, first);
            let (twice, second_result) = recorded(once, second);
            &&& second_result is Ok
            &&& second_result->Ok_0.account_podcast_episode.id
                == first_result->Ok_0.account_podcast_episode.id
            &&& second_result->Ok_0.account_podcast_episode.listened_seconds
                == second.listened_seconds
            &&& second_result->Ok_0.account_podcast_episode.played == second.played
            &&& twice.rows.len() == once.rows.len()
            &&& twice.find(second.account_podcast_id, second.episode_id) == Some(
                second_result->Ok_0.account_podcast_episode,
            )
        }),
{
    table.lemma_upsert(first);
    recorded(table, first).0.lemma_upsert(second);
}

/// Recording progress touches one row at most: every other pair of
/// subscription and episode has the row afterwards that it had before, or
/// none as before.
pub proof fn lemma_recorded_leaves_others(
    table: Progress,
    values: insertable::AccountPodcastEpisode,
    other_account_podcast_id: i64,
    other_episode_id: i64,
)
    requires
        table.wf(),
        !(other_account_podcast_id == values.account_podcast_id && other_episode_id
            == values.episode_id),
    ensures
        recorded(table, values).0.find(other_account_podcast_id, other_episode_id) == table.find(
            other_account_podcast_id,
            other_episode_id,
        ),
{
    table.lemma_upsert(values);
}

} // verus!
