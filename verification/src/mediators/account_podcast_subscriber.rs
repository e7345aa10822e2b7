//! Subscribes an account to a podcast, or ends its subscription.
//!
//! The mediator decides which statements the store is to carry out and what
//! their outcomes mean; it never talks to the store by itself. A caller with
//! a database runs [`Mediator::start`] and [`Mediator::resume`] inside one
//! transaction, carries out each statement it is handed, and commits or rolls
//! back as the last step says. [`Mediator::run_at`] does the same against the
//! table held in memory.

use vstd::pervasive::unreached;
use vstd::prelude::*;

use crate::errors::{Error, ErrorKindView, ErrorView};
use crate::model::insertable;
use crate::model::{Account, AccountPodcast, Podcast, Timestamp};
use crate::store::{AccountPodcastTable, Failure, Subscriptions};
use crate::time_helpers;

verus! {

/// One transition of the subscription of `account` to `podcast`: towards
/// subscribed, or towards unsubscribed.
pub struct Mediator<'a> {
    pub account: &'a Account,
    pub podcast: &'a Podcast,
    pub subscribed: bool,
}

/// What a run leaves behind: the row as it stands after the transition, or
/// nothing where an account that had no row was to be unsubscribed.
#[derive(Debug, Clone, Copy, PartialEq, Eq)]
pub struct RunResult {
    pub account_podcast: Option<AccountPodcast>,
}

/// A statement for the store.
#[derive(Debug, Clone, Copy, PartialEq, Eq)]
pub enum Statement {
    /// Is there a row for this account and podcast?
    CheckExists { account_id: i64, podcast_id: i64 },
    /// Insert these values; where a row of the same account and podcast
    /// exists, overwrite its two timestamps with those given here.
    Upsert(insertable::AccountPodcast),
    /// Set the time of unsubscription on the row of this account and podcast,
    /// and leave the time of subscription as it is.
    MarkUnsubscribed { account_id: i64, podcast_id: i64, unsubscribed_at: Timestamp },
}

impl Statement {
    /// The context that is attached to the error when this statement fails.
    pub open spec fn failure_context(self) -> Seq<char> {
        match self {
            Statement::CheckExists { .. } => "Error checking account podcast existence"@,
            Statement::Upsert(_) => "Error upserting account podcast"@,
            Statement::MarkUnsubscribed { .. } => "Error updating account podcast"@,
        }
    }

    /// The error that a failure of this statement with the given diagnostic
    /// turns into: an internal one, with the statement's context attached.
    pub open spec fn failure(self, diagnostic: Seq<char>) -> ErrorView {
        ErrorView::plain(ErrorKindView::Internal(diagnostic)).chained(self.failure_context())
    }

    fn fail(&self, diagnostic: String) -> (error: Error)
        ensures
            error@ == self.failure(diagnostic@),
    {
        let error = Error::internal(diagnostic.as_str());
        match self {
            Statement::CheckExists { .. } => error.chain_err(
                "Error checking account podcast existence",
            ),
            Statement::Upsert(_) => error.chain_err("Error upserting account podcast"),
            Statement::MarkUnsubscribed { .. } => error.chain_err("Error updating account podcast"),
        }
    }
}

/// What the store answered to a statement.
#[derive(Debug, Clone, PartialEq, Eq)]
pub enum Outcome {
    /// The answer to [`Statement::CheckExists`].
    Exists(bool),
    /// The row as it stands after an upsert or an update.
    Row(AccountPodcast),
    /// The statement failed; the store's diagnostic.
    Failed(String),
}

/// The mathematical content of an [`Outcome`].
pub enum OutcomeView {
    Exists(bool),
    Row(AccountPodcast),
    Failed(Seq<char>),
}

impl View for Outcome {
    type V = OutcomeView;

    open spec fn view(&self) -> OutcomeView {
        match *self {
            Outcome::Exists(found) => OutcomeView::Exists(found),
            Outcome::Row(row) => OutcomeView::Row(row),
            Outcome::Failed(diagnostic) => OutcomeView::Failed(diagnostic@),
        }
    }
}

/// What is to happen next in the transaction.
#[derive(Debug, Clone, PartialEq, Eq)]
pub enum Step {
    /// Carry out this statement and come back with its outcome.
    Execute(Statement),
    /// Commit; the run has this result.
    Commit(RunResult),
    /// Roll back; the run has failed with this error.
    Rollback(Error),
}

/// The mathematical content of a [`Step`].
pub enum StepView {
    Execute(Statement),
    Commit(RunResult),
    Rollback(ErrorView),
}

impl View for Step {
    type V = StepView;

    open spec fn view(&self) -> StepView {
        match *self {
            Step::Execute(statement) => StepView::Execute(statement),
            Step::Commit(result) => StepView::Commit(result),
            Step::Rollback(error) => StepView::Rollback(error@),
        }
    }
}

/// The values that subscribing at `now` writes: subscribed then, and not
/// unsubscribed.
pub open spec fn subscription_values(account_id: i64, podcast_id: i64, now: Timestamp)
    -> insertable::AccountPodcast {
    insertable::AccountPodcast {
        account_id,
        podcast_id,
        subscribed_at: Some(now),
        unsubscribed_at: None,
    }
}

/// The first step of a transition.
pub open spec fn first_step(account_id: i64, podcast_id: i64, subscribed: bool, now: Timestamp)
    -> StepView {
    if subscribed {
        StepView::Execute(Statement::Upsert(subscription_values(account_id, podcast_id, now)))
    } else {
        StepView::Execute(Statement::CheckExists { account_id, podcast_id })
    }
}

/// The step that follows when `asked` was carried out with `outcome`.
///
/// An account without a row that was to be unsubscribed is finished with no
/// row, and nothing is written. A row that exists is then marked. A row that
/// comes back from an upsert or an update is the result. A failure, or an
/// outcome that does not answer the statement, rolls back.
pub open spec fn following_step(now: Timestamp, asked: Statement, outcome: OutcomeView)
    -> StepView {
    match (asked, outcome) {
        (_, OutcomeView::Failed(diagnostic)) => StepView::Rollback(asked.failure(diagnostic)),
        (Statement::CheckExists { account_id, podcast_id }, OutcomeView::Exists(found)) => {
            if found {
                StepView::Execute(
                    Statement::MarkUnsubscribed { account_id, podcast_id, unsubscribed_at: now },
                )
            } else {
                StepView::Commit(RunResult { account_podcast: None })
            }
        },
        (Statement::Upsert(_), OutcomeView::Row(row)) => StepView::Commit(
            RunResult { account_podcast: Some(row) },
        ),
        (Statement::MarkUnsubscribed { .. }, OutcomeView::Row(row)) => StepView::Commit(
            RunResult { account_podcast: Some(row) },
        ),
        _ => StepView::Rollback(asked.failure("Unexpected outcome"@)),
    }
}

/// What the table held in memory answers to a statement, and how it stands
/// afterwards.
pub open spec fn executed(table: Subscriptions, statement: Statement) -> (
    Subscriptions,
    OutcomeView,
) {
    match statement {
        Statement::CheckExists { account_id, podcast_id } => (
            table,
            OutcomeView::Exists(table.has(account_id, podcast_id)),
        ),
        Statement::Upsert(values) => (
            table.upsert(values),
            if table.can_upsert(values) {
                OutcomeView::Row(table.upserted_row(values))
            } else {
                OutcomeView::Failed(Failure::SequenceExhausted.text())
            },
        ),
        Statement::MarkUnsubscribed { account_id, podcast_id, unsubscribed_at } => (
            table.mark_unsubscribed(account_id, podcast_id, unsubscribed_at),
            if table.has(account_id, podcast_id) {
                OutcomeView::Row(table.unsubscribed_row(account_id, podcast_id, unsubscribed_at))
            } else {
                OutcomeView::Failed(Failure::NotFound.text())
            },
        ),
    }
}

/// A whole transition on the table held in memory: the table afterwards and
/// the result of the run.
///
/// Subscribing upserts the row of the account and the podcast: a row that
/// exists keeps its id and takes the new timestamps, a missing row is
/// inserted. Unsubscribing an account that has no row writes nothing and has
/// no row as its result; otherwise the row's time of unsubscription is set.
/// A run that fails leaves the table as it was.
pub open spec fn transition(
    table: Subscriptions,
    account_id: i64,
    podcast_id: i64,
    subscribed: bool,
    now: Timestamp,
) -> (Subscriptions, Result<RunResult, ErrorView>) {
    if subscribed {
        let values = subscription_values(account_id, podcast_id, now);
        if table.can_upsert(values) {
            (
                table.upsert(values),
                Ok(RunResult { account_podcast: Some(table.upserted_row(values)) }),
            )
        } else {
            (
                table,
                Err(Statement::Upsert(values).failure(Failure::SequenceExhausted.text())),
            )
        }
    } else if table.has(account_id, podcast_id) {
        (
            table.mark_unsubscribed(account_id, podcast_id, now),
            Ok(
                RunResult {
                    account_podcast: Some(table.unsubscribed_row(account_id, podcast_id, now)),
                },
            ),
        )
    } else {
        (table, Ok(RunResult { account_podcast: None }))
    }
}

/// Whether `result` is what `expected` says, the error taken by its content.
pub open spec fn result_is(result: Result<RunResult, Error>, expected: Result<RunResult, ErrorView>)
    -> bool {
    match result {
        Ok(run) => expected == Ok::<RunResult, ErrorView>(run),
        Err(error) => expected == Err::<RunResult, ErrorView>(error@),
    }
}

/// Carries out a statement on the table held in memory.
pub fn execute(table: &mut AccountPodcastTable, statement: &Statement) -> (outcome: Outcome)
    ensures
        final(table)@ == executed(old(table)@, *statement).0,
        outcome@ == executed(old(table)@, *statement).1,
{
    match statement {
        Statement::CheckExists { account_id, podcast_id } => Outcome::Exists(
            table.contains(*account_id, *podcast_id),
        ),
        Statement::Upsert(values) => match table.upsert(values) {
            Ok(row) => Outcome::Row(row),
            Err(failure) => Outcome::Failed(failure.message()),
        },
        Statement::MarkUnsubscribed { account_id, podcast_id, unsubscribed_at } => {
            match table.mark_unsubscribed(*account_id, *podcast_id, *unsubscribed_at) {
                Ok(row) => Outcome::Row(row),
                Err(failure) => Outcome::Failed(failure.message()),
            }
        },
    }
}

impl<'a> Mediator<'a> {
    /// The transition of this mediator on the table held in memory.
    pub open spec fn run_spec(&self, table: Subscriptions, now: Timestamp) -> (
        Subscriptions,
        Result<RunResult, ErrorView>,
    ) {
        transition(table, self.account.id, self.podcast.id, self.subscribed, now)
    }

    /// The first step of the transaction, with `now` as the time of the
    /// transition.
    pub fn start(&self, now: Timestamp) -> (step: Step)
        ensures
            step@ == first_step(self.account.id, self.podcast.id, self.subscribed, now),
    {
        if self.subscribed {
            Step::Execute(
                Statement::Upsert(
                    insertable::AccountPodcast {
                        account_id: self.account.id,
                        podcast_id: self.podcast.id,
                        subscribed_at: Some(now),
                        unsubscribed_at: None,
                    },
                ),
            )
        } else {
            Step::Execute(
                Statement::CheckExists { account_id: self.account.id, podcast_id: self.podcast.id },
            )
        }
    }

    /// The step that follows when the statement `asked` had `outcome`.
    pub fn resume(&self, now: Timestamp, asked: &Statement, outcome: Outcome) -> (step: Step)
        ensures
            step@ == following_step(now, *asked, outcome@),
    {
        match outcome {
            Outcome::Failed(diagnostic) => Step::Rollback(asked.fail(diagnostic)),
            Outcome::Exists(found) => match asked {
                Statement::CheckExists { account_id, podcast_id } => {
                    if found {
                        Step::Execute(
                            Statement::MarkUnsubscribed {
                                account_id: *account_id,
                                podcast_id: *podcast_id,
                                unsubscribed_at: now,
                            },
                        )
                    } else {
                        Step::Commit(RunResult { account_podcast: None })
                    }
                },
                _ => Step::Rollback(asked.fail("Unexpected outcome".to_owned())),
            },
            Outcome::Row(row) => match asked {
                Statement::CheckExists { .. } => Step::Rollback(
                    asked.fail("Unexpected outcome".to_owned()),
                ),
                _ => Step::Commit(RunResult { account_podcast: Some(row) }),
            },
        }
    }

    /// Runs the transition on the table held in memory, with `now` as its
    /// time.
    pub fn run_at(&self, table: &mut AccountPodcastTable, now: Timestamp) -> (result: Result<
        RunResult,
        Error,
    >)
        ensures
            final(table)@ == self.run_spec(old(table)@, now).0,
            result_is(result, self.run_spec(old(table)@, now).1),
    {
        match self.start(now) {
            Step::Execute(first) => {
                let outcome = execute(table, &first);
                match self.resume(now, &first, outcome) {
                    Step::Execute(second) => {
                        let outcome = execute(table, &second);
                        match self.resume(now, &second, outcome) {
                            Step::Execute(_) => unreached(),
                            Step::Commit(run) => Ok(run),
                            Step::Rollback(error) => Err(error),
                        }
                    },
                    Step::Commit(run) => Ok(run),
                    Step::Rollback(error) => Err(error),
                }
            },
            Step::Commit(run) => Ok(run),
            Step::Rollback(error) => Err(error),
        }
    }

    /// Runs the transition on the table held in memory at the time the clock
    /// shows.
    pub fn run(&self, table: &mut AccountPodcastTable) -> (result: Result<RunResult, Error>)
        ensures
            exists|now: Timestamp|
                final(table)@ == (#[trigger] self.run_spec(old(table)@, now)).0 && result_is(
                    result,
                    self.run_spec(old(table)@, now).1,
                ),
    {
        let now = time_helpers::now();
        let result = self.run_at(table, now);
        result
    }
}

/// The id of the row that a run left behind, if it left one.
pub open spec fn row_id(result: Result<RunResult, ErrorView>) -> Option<i64> {
    match result {
        Ok(RunResult { account_podcast: Some(row) }) => Some(row.id),
        _ => None,
    }
}

/// A transition keeps the table well-formed.
pub proof fn lemma_transition_keeps_wf(
    table: Subscriptions,
    account_id: i64,
    podcast_id: i64,
    subscribed: bool,
    now: Timestamp,
)
    requires
        table.wf(),
    ensures
        transition(table, account_id, podcast_id, subscribed, now).0.wf(),
{
    table.lemma_upsert(subscription_values(account_id, podcast_id, now));
    table.lemma_mark_unsubscribed(account_id, podcast_id, now);
}

/// Subscribing is idempotent: where subscribing an account to a podcast
/// succeeded, subscribing it again succeeds as well and comes back with the
/// row of the same id, and the table has as many rows as before.
pub proof fn lemma_subscribe_again_same_row(
    table: Subscriptions,
    account_id: i64,
    podcast_id: i64,
    first: Timestamp,
    second: Timestamp,
)
    requires
        table.wf(),
        transition(table, account_id, podcast_id, true, first).1 is Ok,
    ensures
        ({
            let (once, first_result) = transition(table, account_id, podcast_id, true, first);
            let (twice, second_result) = transition(once, account_id, podcast_id, true, second);
            &&& row_id(first_result) is Some
            &&& row_id(second_result) == row_id(first_result)
            &&& twice.rows.len() == once.rows.len()
        }),
{
    let values = subscription_values(account_id, podcast_id, first);
    table.lemma_upsert(values);
    let once = table.upsert(values);
    once.lemma_upsert(subscription_values(account_id, podcast_id, second));
}

/// Unsubscribing an account from a podcast for which it has no row writes
/// nothing and has no row as its result.
pub proof fn lemma_unsubscribe_without_row(
    table: Subscriptions,
    account_id: i64,
    podcast_id: i64,
    now: Timestamp,
)
    requires
        !table.has(account_id, podcast_id),
    ensures
        transition(table, account_id, podcast_id, false, now) == (
            table,
            Ok::<RunResult, ErrorView>(RunResult { account_podcast: None }),
        ),
{
}

/// Subscribing, unsubscribing and subscribing again work on one row: where
/// the first subscription succeeded, the two transitions after it succeed as
/// well, and all three come back with the row of the same id.
pub proof fn lemma_resubscribe_same_row(
    table: Subscriptions,
    account_id: i64,
    podcast_id: i64,
    first: Timestamp,
    second: Timestamp,
    third: Timestamp,
)
    requires
        table.wf(),
        transition(table, account_id, podcast_id, true, first).1 is Ok,
    ensures
        ({
            let (subscribed, first_result) = transition(table, account_id, podcast_id, true, first);
            let (unsubscribed, second_result) = transition(
                subscribed,
                account_id,
                podcast_id,
                false,
                second,
            );
            let (resubscribed, third_result) = transition(
                unsubscribed,
                account_id,
                podcast_id,
                true,
                third,
            );
            &&& row_id(first_result) is Some
            &&& row_id(second_result) == row_id(first_result)
            &&& row_id(third_result) == row_id(first_result)
            &&& resubscribed.rows.len() == subscribed.rows.len()
        }),
{
    let values = subscription_values(account_id, podcast_id, first);
    table.lemma_upsert(values);
    let subscribed = table.upsert(values);
    subscribed.lemma_mark_unsubscribed(account_id, podcast_id, second);
    let unsubscribed = subscribed.mark_unsubscribed(account_id, podcast_id, second);
    unsubscribed.lemma_upsert(subscription_values(account_id, podcast_id, third));
}

/// After a subscription the row counts as subscribed, and after an
/// unsubscription of an existing row it does not, while the time of
/// subscription stays what it was.
pub proof fn lemma_transition_sets_state(
    table: Subscriptions,
    account_id: i64,
    podcast_id: i64,
    subscribed: bool,
    now: Timestamp,
)
    requires
        table.wf(),
    ensures
        match transition(table, account_id, podcast_id, subscribed, now).1 {
            Ok(RunResult { account_podcast: Some(row) }) => {
                &&& row.has_key(account_id, podcast_id)
                &&& row.is_subscribed() == subscribed
                &&& transition(table, account_id, podcast_id, subscribed, now).0.find(
                    account_id,
                    podcast_id,
                ) == Some(row)
                &&& !subscribed ==> table.find(account_id, podcast_id) is Some && row.subscribed_at
                    == table.find(account_id, podcast_id)->0.subscribed_at
            },
            Ok(RunResult { account_podcast: None }) => !subscribed && !table.has(
                account_id,
                podcast_id,
            ),
            Err(_) => subscribed && transition(table, account_id, podcast_id, subscribed, now).0
                == table,
        },
{
    table.lemma_upsert(subscription_values(account_id, podcast_id, now));
    table.lemma_mark_unsubscribed(account_id, podcast_id, now);
}

/// A transition touches one row at most: every other pair of account and
/// podcast has the row afterwards that it had before, or none as before.
pub proof fn lemma_transition_leaves_others(
    table: Subscriptions,
    account_id: i64,
    podcast_id: i64,
    subscribed: bool,
    now: Timestamp,
    other_account_id: i64,
    other_podcast_id: i64,
)
    requires
        table.wf(),
        !(other_account_id == account_id && other_podcast_id == podcast_id),
    ensures
        transition(table, account_id, podcast_id, subscribed, now).0.find(
            other_account_id,
            other_podcast_id,
        ) == table.find(other_account_id, other_podcast_id),
{
    let after = transition(table, account_id, podcast_id, subscribed, now).0;
    table.lemma_upsert(subscription_values(account_id, podcast_id, now));
    if !subscribed && table.has(account_id, podcast_id) {
        table.lemma_mark_unsubscribed(account_id, podcast_id, now);
        if table.has(other_account_id, other_podcast_id) {
            after.lemma_index_unique(table.index_of(other_account_id, other_podcast_id));
        } else if after.has(other_account_id, other_podcast_id) {
            assert(table.rows[after.index_of(other_account_id, other_podcast_id)].has_key(
                other_account_id,
                other_podcast_id,
            ));
        }
    }
}

} // verus!
