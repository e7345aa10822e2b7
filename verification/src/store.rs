//! The two tables that the mediators write, held in memory.
//!
//! Each table keeps at most one row for each key pair and hands out ids from
//! a sequence of its own. The mathematical model of a table is a sequence of
//! rows together with the last id that was handed out; the functions of the
//! model say what an upsert and an update do to it.

use vstd::prelude::*;

use crate::model::insertable;
use crate::model::{AccountPodcast, AccountPodcastEpisode, Timestamp};

verus! {

/// Why the store could not carry out a statement.
#[derive(Debug, Clone, Copy, PartialEq, Eq)]
pub enum Failure {
    /// A new row was due, and the id sequence has no id left.
    SequenceExhausted,
    /// The row to update does not exist.
    NotFound,
}

impl Failure {
    /// The diagnostic text of a failure.
    pub open spec fn text(self) -> Seq<char> {
        match self {
            Failure::SequenceExhausted => "Id sequence exhausted"@,
            Failure::NotFound => "Record not found"@,
        }
    }

    /// Renders the diagnostic text.
    pub fn message(&self) -> (text: String)
        ensures
            text@ == self.text(),
    {
        match self {
            Failure::SequenceExhausted => "Id sequence exhausted".to_owned(),
            Failure::NotFound => "Record not found".to_owned(),
        }
    }
}

/// The model of the subscription table.
pub struct Subscriptions {
    pub rows: Seq<AccountPodcast>,
    pub last_id: int,
}

impl Subscriptions {
    /// The table without rows, before any id was handed out.
    pub open spec fn empty() -> Subscriptions {
        Subscriptions { rows: Seq::empty(), last_id: 0 }
    }

    /// What holds of every table: ids are positive, were handed out by the
    /// sequence and are used once, and no two rows share an account and a
    /// podcast.
    pub open spec fn wf(self) -> bool {
        &&& 0 <= self.last_id <= i64::MAX
        &&& forall|i: int|
            0 <= i < self.rows.len() ==> 0 < (#[trigger] self.rows[i]).id <= self.last_id
        &&& forall|i: int, j: int|
            0 <= i < j < self.rows.len() ==> (#[trigger] self.rows[i]).id != (
            #[trigger] self.rows[j]).id
        &&& forall|i: int, j: int|
            0 <= i < j < self.rows.len() ==> !(#[trigger] self.rows[i]).has_key(
                (#[trigger] self.rows[j]).account_id,
                self.rows[j].podcast_id,
            )
    }

    /// Whether there is a row for the account and the podcast.
    pub open spec fn has(self, account_id: i64, podcast_id: i64) -> bool {
        exists|i: int|
            0 <= i < self.rows.len() && (#[trigger] self.rows[i]).has_key(account_id, podcast_id)
    }

    /// Where the row for the account and the podcast stands, if there is one.
    pub open spec fn index_of(self, account_id: i64, podcast_id: i64) -> int {
        choose|i: int|
            0 <= i < self.rows.len() && (#[trigger] self.rows[i]).has_key(account_id, podcast_id)
    }

    /// The row for the account and the podcast, if there is one.
    pub open spec fn find(self, account_id: i64, podcast_id: i64) -> Option<AccountPodcast> {
        if self.has(account_id, podcast_id) {
            Some(self.rows[self.index_of(account_id, podcast_id)])
        } else {
            None
        }
    }

    /// Whether the id sequence has no id left.
    pub open spec fn exhausted(self) -> bool {
        self.last_id >= i64::MAX
    }

    /// The row that an upsert of `values` leaves in the table. Where a row of
    /// the same account and podcast exists, it keeps its id and takes both
    /// timestamps from `values`; otherwise the row is new and gets the next
    /// id.
    pub open spec fn upserted_row(self, values: insertable::AccountPodcast) -> AccountPodcast {
        AccountPodcast {
            id: match self.find(values.account_id, values.podcast_id) {
                Some(row) => row.id,
                None => (self.last_id + 1) as i64,
            },
            account_id: values.account_id,
            podcast_id: values.podcast_id,
            subscribed_at: values.subscribed_at,
            unsubscribed_at: values.unsubscribed_at,
        }
    }

    /// Whether an upsert of `values` can be carried out: always where the row
    /// exists, and otherwise while the sequence has an id left.
    pub open spec fn can_upsert(self, values: insertable::AccountPodcast) -> bool {
        self.has(values.account_id, values.podcast_id) || !self.exhausted()
    }

    /// The table after an upsert of `values`. A table on which the upsert
    /// cannot be carried out stays as it is.
    pub open spec fn upsert(self, values: insertable::AccountPodcast) -> Subscriptions {
        if self.has(values.account_id, values.podcast_id) {
            Subscriptions {
                rows: self.rows.update(
                    self.index_of(values.account_id, values.podcast_id),
                    self.upserted_row(values),
                ),
                last_id: self.last_id,
            }
        } else if !self.exhausted() {
            Subscriptions {
                rows: self.rows.push(self.upserted_row(values)),
                last_id: self.last_id + 1,
            }
        } else {
            self
        }
    }

    /// The row of the account and the podcast after it was marked as
    /// unsubscribed at `at`: only that one timestamp changes.
    pub open spec fn unsubscribed_row(
        self,
        account_id: i64,
        podcast_id: i64,
        at: Timestamp,
    ) -> AccountPodcast {
        let row = self.rows[self.index_of(account_id, podcast_id)];
        AccountPodcast { unsubscribed_at: Some(at), ..row }
    }

    /// The table after the row of the account and the podcast was marked as
    /// unsubscribed at `at`. A table without such a row stays as it is.
    pub open spec fn mark_unsubscribed(
        self,
        account_id: i64,
        podcast_id: i64,
        at: Timestamp,
    ) -> Subscriptions {
        if self.has(account_id, podcast_id) {
            Subscriptions {
                rows: self.rows.update(
                    self.index_of(account_id, podcast_id),
                    self.unsubscribed_row(account_id, podcast_id, at),
                ),
                last_id: self.last_id,
            }
        } else {
            self
        }
    }

    /// In a well-formed table the row with a given key stands at one place
    /// only.
    pub proof fn lemma_index_unique(self, i: int)
        requires
            self.wf(),
            0 <= i < self.rows.len(),
        ensures
            self.has(self.rows[i].account_id, self.rows[i].podcast_id),
            self.index_of(self.rows[i].account_id, self.rows[i].podcast_id) == i,
    {
        let j = self.index_of(self.rows[i].account_id, self.rows[i].podcast_id);
        assert(self.rows[j].has_key(self.rows[i].account_id, self.rows[i].podcast_id));
    }

    /// An upsert keeps the table well-formed, leaves the row it speaks of in
    /// the table, and leaves every other key as it was.
    pub proof fn lemma_upsert(self, values: insertable::AccountPodcast)
        requires
            self.wf(),
        ensures
            self.upsert(values).wf(),
            self.can_upsert(values) ==> self.upsert(values).find(
                values.account_id,
                values.podcast_id,
            ) == Some(self.upserted_row(values)),
            self.upsert(values).rows.len() == if self.can_upsert(values) && !self.has(
                values.account_id,
                values.podcast_id,
            ) {
                self.rows.len() + 1
            } else {
                self.rows.len()
            },
            forall|account_id: i64, podcast_id: i64|
                !(account_id == values.account_id && podcast_id == values.podcast_id)
                    ==> #[trigger] self.upsert(values).find(account_id, podcast_id) == self.find(
                    account_id,
                    podcast_id,
                ),
    {
        let after = self.upsert(values);
        if self.has(values.account_id, values.podcast_id) {
            let at = self.index_of(values.account_id, values.podcast_id);
            assert forall|i: int| 0 <= i < after.rows.len() implies (#[trigger] after.rows[i]).id
                == self.rows[i].id && after.rows[i].account_id == self.rows[i].account_id
                && after.rows[i].podcast_id == self.rows[i].podcast_id by {}
            after.lemma_index_unique(at);
        } else if !self.exhausted() {
            let at = self.rows.len() as int;
            assert forall|i: int| 0 <= i < self.rows.len() implies #[trigger] after.rows[i]
                == self.rows[i] by {}
            assert forall|i: int, j: int| 0 <= i < j < after.rows.len() implies !(
            #[trigger] after.rows[i]).has_key(
                (#[trigger] after.rows[j]).account_id,
                after.rows[j].podcast_id,
            ) by {
                if j == at {
                    assert(after.rows[i] == self.rows[i]);
                } else {
                    assert(after.rows[i] == self.rows[i] && after.rows[j] == self.rows[j]);
                }
            }
            after.lemma_index_unique(at);
        }
        assert(after.wf());
        assert forall|account_id: i64, podcast_id: i64|
            !(account_id == values.account_id && podcast_id == values.podcast_id)
                implies #[trigger] after.find(account_id, podcast_id) == self.find(
            account_id,
            podcast_id,
        ) by {
            if self.has(account_id, podcast_id) {
                after.lemma_index_unique(self.index_of(account_id, podcast_id));
            } else if after.has(account_id, podcast_id) {
                assert(self.rows[after.index_of(account_id, podcast_id)].has_key(
                    account_id,
                    podcast_id,
                ));
            }
        }
    }

    /// Marking a row as unsubscribed keeps the table well-formed and its
    /// length, and leaves the changed row in the table.
    pub proof fn lemma_mark_unsubscribed(self, account_id: i64, podcast_id: i64, at: Timestamp)
        requires
            self.wf(),
        ensures
            self.mark_unsubscribed(account_id, podcast_id, at).wf(),
            self.mark_unsubscribed(account_id, podcast_id, at).rows.len() == self.rows.len(),
            self.has(account_id, podcast_id) ==> self.mark_unsubscribed(
                account_id,
                podcast_id,
                at,
            ).find(account_id, podcast_id) == Some(
                self.unsubscribed_row(account_id, podcast_id, at),
            ),
    {
        let after = self.mark_unsubscribed(account_id, podcast_id, at);
        if self.has(account_id, podcast_id) {
            let place = self.index_of(account_id, podcast_id);
            assert forall|i: int| 0 <= i < after.rows.len() implies (#[trigger] after.rows[i]).id
                == self.rows[i].id && after.rows[i].account_id == self.rows[i].account_id
                && after.rows[i].podcast_id == self.rows[i].podcast_id by {}
            after.lemma_index_unique(place);
        }
    }
}

/// The subscription table.
pub struct AccountPodcastTable {
    rows: Vec<AccountPodcast>,
    last_id: i64,
}

impl View for AccountPodcastTable {
    type V = Subscriptions;

    closed spec fn view(&self) -> Subscriptions {
        Subscriptions { rows: self.rows@, last_id: self.last_id as int }
    }
}

impl AccountPodcastTable {
    #[verifier::type_invariant]
    spec fn well_formed(self) -> bool {
        self@.wf()
    }

    /// A table without rows.
    pub fn new() -> (table: AccountPodcastTable)
        ensures
            table@ == Subscriptions::empty(),
            table@.wf(),
    {
        AccountPodcastTable { rows: Vec::new(), last_id: 0 }
    }

    /// The number of rows.
    pub fn len(&self) -> (n: usize)
        ensures
            n == self@.rows.len(),
            self@.wf(),
    {
        proof {
            use_type_invariant(self);
        }
        self.rows.len()
    }

    fn position(&self, account_id: i64, podcast_id: i64) -> (place: Option<usize>)
        ensures
            place is Some == self@.has(account_id, podcast_id),
            place matches Some(i) ==> i == self@.index_of(account_id, podcast_id) && i
                < self.rows@.len(),
    {
        proof {
            use_type_invariant(self);
        }
        let n: usize = self.rows.len();
        let mut i: usize = 0;
        while i < n
            invariant
                n == self.rows@.len(),
                i <= n,
                self@.wf(),
                self@.rows == self.rows@,
                forall|k: int| 0 <= k < i ==> !(#[trigger] self.rows@[k]).has_key(account_id, podcast_id),
            decreases n - i,
        {
            let row = self.rows[i];
            if row.account_id == account_id && row.podcast_id == podcast_id {
                proof {
                    self@.lemma_index_unique(i as int);
                }
                return Some(i);
            }
            i = i + 1;
        }
        None
    }

    /// Whether there is a row for the account and the podcast.
    pub fn contains(&self, account_id: i64, podcast_id: i64) -> (found: bool)
        ensures
            found == self@.has(account_id, podcast_id),
    {
        self.position(account_id, podcast_id).is_some()
    }

    /// The row for the account and the podcast, if there is one.
    pub fn get(&self, account_id: i64, podcast_id: i64) -> (row: Option<AccountPodcast>)
        ensures
            row == self@.find(account_id, podcast_id),
    {
        match self.position(account_id, podcast_id) {
            Some(i) => Some(self.rows[i]),
            None => None,
        }
    }

    /// Inserts a row with the given values, or overwrites both timestamps of
    /// the row that exists for the same account and podcast, and returns the
    /// row as it then stands. Fails, and changes nothing, where a new row is
    /// due and the id sequence is exhausted.
    pub fn upsert(&mut self, values: &insertable::AccountPodcast) -> (result: Result<
        AccountPodcast,
        Failure,
    >)
        ensures
            final(self)@ == old(self)@.upsert(*values),
            result == if old(self)@.can_upsert(*values) {
                Ok::<AccountPodcast, Failure>(old(self)@.upserted_row(*values))
            } else {
                Err::<AccountPodcast, Failure>(Failure::SequenceExhausted)
            },
    {
        proof {
            use_type_invariant(&*self);
            self@.lemma_upsert(*values);
        }
        match self.position(values.account_id, values.podcast_id) {
            Some(i) => {
                let row = AccountPodcast {
                    id: self.rows[i].id,
                    account_id: values.account_id,
                    podcast_id: values.podcast_id,
                    subscribed_at: values.subscribed_at,
                    unsubscribed_at: values.unsubscribed_at,
                };
                let mut rows: Vec<AccountPodcast> = Vec::new();
                std::mem::swap(&mut self.rows, &mut rows);
                rows.set(i, row);
                std::mem::swap(&mut self.rows, &mut rows);
                Ok(row)
            },
            None => {
                if self.last_id == i64::MAX {
                    return Err(Failure::SequenceExhausted);
                }
                let row = AccountPodcast {
                    id: self.last_id + 1,
                    account_id: values.account_id,
                    podcast_id: values.podcast_id,
                    subscribed_at: values.subscribed_at,
                    unsubscribed_at: values.unsubscribed_at,
                };
                self.last_id = self.last_id + 1;
                let mut rows: Vec<AccountPodcast> = Vec::new();
                std::mem::swap(&mut self.rows, &mut rows);
                rows.push(row);
                std::mem::swap(&mut self.rows, &mut rows);
                Ok(row)
            },
        }
    }

    /// Sets the time of unsubscription on the row of the account and the
    /// podcast and returns the row as it then stands. Fails, and changes
    /// nothing, where there is no such row.
    pub fn mark_unsubscribed(&mut self, account_id: i64, podcast_id: i64, at: Timestamp) -> (result:
        Result<AccountPodcast, Failure>)
        ensures
            final(self)@ == old(self)@.mark_unsubscribed(account_id, podcast_id, at),
            result == if old(self)@.has(account_id, podcast_id) {
                Ok::<AccountPodcast, Failure>(
                    old(self)@.unsubscribed_row(account_id, podcast_id, at),
                )
            } else {
                Err::<AccountPodcast, Failure>(Failure::NotFound)
            },
    {
        proof {
            use_type_invariant(&*self);
            self@.lemma_mark_unsubscribed(account_id, podcast_id, at);
        }
        match self.position(account_id, podcast_id) {
            Some(i) => {
                let before = self.rows[i];
                let row = AccountPodcast {
                    id: before.id,
                    account_id: before.account_id,
                    podcast_id: before.podcast_id,
                    subscribed_at: before.subscribed_at,
                    unsubscribed_at: Some(at),
                };
                let mut rows: Vec<AccountPodcast> = Vec::new();
                std::mem::swap(&mut self.rows, &mut rows);
                rows.set(i, row);
                std::mem::swap(&mut self.rows, &mut rows);
                Ok(row)
            },
            None => Err(Failure::NotFound),
        }
    }
}

/// The model of the listen-progress table.
pub struct Progress {
    pub rows: Seq<AccountPodcastEpisode>,
    pub last_id: int,
}

impl Progress {
    /// The table without rows, before any id was handed out.
    pub open spec fn empty() -> Progress {
        Progress { rows: Seq::empty(), last_id: 0 }
    }

    /// What holds of every table: ids are positive, were handed out by the
    /// sequence and are used once, and no two rows share a subscription and
    /// an episode.
    pub open spec fn wf(self) -> bool {
        &&& 0 <= self.last_id <= i64::MAX
        &&& forall|i: int|
            0 <= i < self.rows.len() ==> 0 < (#[trigger] self.rows[i]).id <= self.last_id
        &&& forall|i: int, j: int|
            0 <= i < j < self.rows.len() ==> (#[trigger] self.rows[i]).id != (
            #[trigger] self.rows[j]).id
        &&& forall|i: int, j: int|
            0 <= i < j < self.rows.len() ==> !(#[trigger] self.rows[i]).has_key(
                (#[trigger] self.rows[j]).account_podcast_id,
                self.rows[j].episode_id,
            )
    }

    /// Whether there is a row for the subscription and the episode.
    pub open spec fn has(self, account_podcast_id: i64, episode_id: i64) -> bool {
        exists|i: int|
            0 <= i < self.rows.len() && (#[trigger] self.rows[i]).has_key(
                account_podcast_id,
                episode_id,
            )
    }

    /// Where the row for the subscription and the episode stands, if there
    /// is one.
    pub open spec fn index_of(self, account_podcast_id: i64, episode_id: i64) -> int {
        choose|i: int|
            0 <= i < self.rows.len() && (#[trigger] self.rows[i]).has_key(
                account_podcast_id,
                episode_id,
            )
    }

    /// The row for the subscription and the episode, if there is one.
    pub open spec fn find(self, account_podcast_id: i64, episode_id: i64) -> Option<
        AccountPodcastEpisode,
    > {
        if self.has(account_podcast_id, episode_id) {
            Some(self.rows[self.index_of(account_podcast_id, episode_id)])
        } else {
            None
        }
    }

    /// Whether the id sequence has no id left.
    pub open spec fn exhausted(self) -> bool {
        self.last_id >= i64::MAX
    }

    /// The row that an upsert of `values` leaves in the table. Where a row of
    /// the same subscription and episode exists, it keeps its id and takes
    /// the seconds listened and the played flag from `values`, whatever it
    /// held before; otherwise the row is new and gets the next id.
    pub open spec fn upserted_row(self, values: insertable::AccountPodcastEpisode)
        -> AccountPodcastEpisode {
        AccountPodcastEpisode {
            id: match self.find(values.account_podcast_id, values.episode_id) {
                Some(row) => row.id,
                None => (self.last_id + 1) as i64,
            },
            account_podcast_id: values.account_podcast_id,
            episode_id: values.episode_id,
            listened_seconds: values.listened_seconds,
            played: values.played,
        }
    }

    /// Whether an upsert of `values` can be carried out: always where the row
    /// exists, and otherwise while the sequence has an id left.
    pub open spec fn can_upsert(self, values: insertable::AccountPodcastEpisode) -> bool {
        self.has(values.account_podcast_id, values.episode_id) || !self.exhausted()
    }

    /// The table after an upsert of `values`. A table on which the upsert
    /// cannot be carried out stays as it is.
    pub open spec fn upsert(self, values: insertable::AccountPodcastEpisode) -> Progress {
        if self.has(values.account_podcast_id, values.episode_id) {
            Progress {
                rows: self.rows.update(
                    self.index_of(values.account_podcast_id, values.episode_id),
                    self.upserted_row(values),
                ),
                last_id: self.last_id,
            }
        } else if !self.exhausted() {
            Progress { rows: self.rows.push(self.upserted_row(values)), last_id: self.last_id + 1 }
        } else {
            self
        }
    }

    /// In a well-formed table the row with a given key stands at one place
    /// only.
    pub proof fn lemma_index_unique(self, i: int)
        requires
            self.wf(),
            0 <= i < self.rows.len(),
        ensures
            self.has(self.rows[i].account_podcast_id, self.rows[i].episode_id),
            self.index_of(self.rows[i].account_podcast_id, self.rows[i].episode_id) == i,
    {
        let j = self.index_of(self.rows[i].account_podcast_id, self.rows[i].episode_id);
        assert(self.rows[j].has_key(self.rows[i].account_podcast_id, self.rows[i].episode_id));
    }

    /// An upsert keeps the table well-formed, leaves the row it speaks of in
    /// the table, adds a row only where none existed, and leaves every other
    /// key as it was.
    pub proof fn lemma_upsert(self, values: insertable::AccountPodcastEpisode)
        requires
            self.wf(),
        ensures
            self.upsert(values).wf(),
            self.can_upsert(values) ==> self.upsert(values).find(
                values.account_podcast_id,
                values.episode_id,
            ) == Some(self.upserted_row(values)),
            self.upsert(values).rows.len() == if self.can_upsert(values) && !self.has(
                values.account_podcast_id,
                values.episode_id,
            ) {
                self.rows.len() + 1
            } else {
                self.rows.len()
            },
            forall|account_podcast_id: i64, episode_id: i64|
                !(account_podcast_id == values.account_podcast_id && episode_id
                    == values.episode_id) ==> #[trigger] self.upsert(values).find(
                    account_podcast_id,
                    episode_id,
                ) == self.find(account_podcast_id, episode_id),
    {
        let after = self.upsert(values);
        if self.has(values.account_podcast_id, values.episode_id) {
            let at = self.index_of(values.account_podcast_id, values.episode_id);
            assert forall|i: int| 0 <= i < after.rows.len() implies (#[trigger] after.rows[i]).id
                == self.rows[i].id && after.rows[i].account_podcast_id
                == self.rows[i].account_podcast_id && after.rows[i].episode_id
                == self.rows[i].episode_id by {}
            after.lemma_index_unique(at);
        } else if !self.exhausted() {
            let at = self.rows.len() as int;
            assert forall|i: int| 0 <= i < self.rows.len() implies #[trigger] after.rows[i]
                == self.rows[i] by {}
            assert forall|i: int, j: int| 0 <= i < j < after.rows.len() implies !(
            #[trigger] after.rows[i]).has_key(
                (#[trigger] after.rows[j]).account_podcast_id,
                after.rows[j].episode_id,
            ) by {
                if j == at {
                    assert(after.rows[i] == self.rows[i]);
                } else {
                    assert(after.rows[i] == self.rows[i] && after.rows[j] == self.rows[j]);
                }
            }
            after.lemma_index_unique(at);
        }
        assert(after.wf());
        assert forall|account_podcast_id: i64, episode_id: i64|
            !(account_podcast_id == values.account_podcast_id && episode_id
                == values.episode_id) implies #[trigger] after.find(
            account_podcast_id,
            episode_id,
        ) == self.find(account_podcast_id, episode_id) by {
            if self.has(account_podcast_id, episode_id) {
                after.lemma_index_unique(self.index_of(account_podcast_id, episode_id));
            } else if after.has(account_podcast_id, episode_id) {
                assert(self.rows[after.index_of(account_podcast_id, episode_id)].has_key(
                    account_podcast_id,
                    episode_id,
                ));
            }
        }
    }
}

/// The listen-progress table.
pub struct AccountPodcastEpisodeTable {
    rows: Vec<AccountPodcastEpisode>,
    last_id: i64,
}

impl View for AccountPodcastEpisodeTable {
    type V = Progress;

    closed spec fn view(&self) -> Progress {
        Progress { rows: self.rows@, last_id: self.last_id as int }
    }
}

impl AccountPodcastEpisodeTable {
    #[verifier::type_invariant]
    spec fn well_formed(self) -> bool {
        self@.wf()
    }

    /// A table without rows.
    pub fn new() -> (table: AccountPodcastEpisodeTable)
        ensures
            table@ == Progress::empty(),
            table@.wf(),
    {
        AccountPodcastEpisodeTable { rows: Vec::new(), last_id: 0 }
    }

    /// The number of rows.
    pub fn len(&self) -> (n: usize)
        ensures
            n == self@.rows.len(),
            self@.wf(),
    {
        proof {
            use_type_invariant(self);
        }
        self.rows.len()
    }

    fn position(&self, account_podcast_id: i64, episode_id: i64) -> (place: Option<usize>)
        ensures
            place is Some == self@.has(account_podcast_id, episode_id),
            place matches Some(i) ==> i == self@.index_of(account_podcast_id, episode_id) && i
                < self.rows@.len(),
    {
        proof {
            use_type_invariant(self);
        }
        let n: usize = self.rows.len();
        let mut i: usize = 0;
        while i < n
            invariant
                n == self.rows@.len(),
                i <= n,
                self@.wf(),
                self@.rows == self.rows@,
                forall|k: int|
                    0 <= k < i ==> !(#[trigger] self.rows@[k]).has_key(
                        account_podcast_id,
                        episode_id,
                    ),
            decreases n - i,
        {
            let row = self.rows[i];
            if row.account_podcast_id == account_podcast_id && row.episode_id == episode_id {
                proof {
                    self@.lemma_index_unique(i as int);
                }
                return Some(i);
            }
            i = i + 1;
        }
        None
    }

    /// The row for the subscription and the episode, if there is one.
    pub fn get(&self, account_podcast_id: i64, episode_id: i64) -> (row: Option<
        AccountPodcastEpisode,
    >)
        ensures
            row == self@.find(account_podcast_id, episode_id),
    {
        match self.position(account_podcast_id, episode_id) {
            Some(i) => Some(self.rows[i]),
            None => None,
        }
    }

    /// Inserts a row with the given values, or overwrites the seconds
    /// listened and the played flag of the row that exists for the same
    /// subscription and episode, and returns the row as it then stands.
    /// Fails, and changes nothing, where a new row is due and the id sequence
    /// is exhausted.
    pub fn upsert(&mut self, values: &insertable::AccountPodcastEpisode) -> (result: Result<
        AccountPodcastEpisode,
        Failure,
    >)
        ensures
            final(self)@ == old(self)@.upsert(*values),
            result == if old(self)@.can_upsert(*values) {
                Ok::<AccountPodcastEpisode, Failure>(old(self)@.upserted_row(*values))
            } else {
                Err::<AccountPodcastEpisode, Failure>(Failure::SequenceExhausted)
            },
    {
        proof {
            use_type_invariant(&*self);
            self@.lemma_upsert(*values);
        }
        match self.position(values.account_podcast_id, values.episode_id) {
            Some(i) => {
                let row = AccountPodcastEpisode {
                    id: self.rows[i].id,
                    account_podcast_id: values.account_podcast_id,
                    episode_id: values.episode_id,
                    listened_seconds: values.listened_seconds,
                    played: values.played,
                };
                let mut rows: Vec<AccountPodcastEpisode> = Vec::new();
                std::mem::swap(&mut self.rows, &mut rows);
                rows.set(i, row);
                std::mem::swap(&mut self.rows, &mut rows);
                Ok(row)
            },
            None => {
                if self.last_id == i64::MAX {
                    return Err(Failure::SequenceExhausted);
                }
                let row = AccountPodcastEpisode {
                    id: self.last_id + 1,
                    account_podcast_id: values.account_podcast_id,
                    episode_id: values.episode_id,
                    listened_seconds: values.listened_seconds,
                    played: values.played,
                };
                self.last_id = self.last_id + 1;
                let mut rows: Vec<AccountPodcastEpisode> = Vec::new();
                std::mem::swap(&mut self.rows, &mut rows);
                rows.push(row);
                std::mem::swap(&mut self.rows, &mut rows);
                Ok(row)
            },
        }
    }
}

} // verus!
