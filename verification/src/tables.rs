//! The two tables and their four operations, as a model and held in memory.
use crate::domain::NewSubscriber;
use crate::store::{
    confirm_outcome, confirm_verdict, is_random_uuid, pending_row, resolve_outcome,
    resolve_verdict, StoreError, SubscriberId, Subscription, SubscriptionStatus,
    SubscriptionToken, SubscriptionView, Timestamp, TokenView,
};
use vstd::prelude::*;

verus! {

/// Whether some row of `rows` has the identity `id`.
pub open spec fn has_id(rows: Seq<SubscriptionView>, id: SubscriberId) -> bool {
    exists|i: int| 0 <= i < rows.len() && (#[trigger] rows[i]).id == id
}

/// Whether some row of `tokens` holds `token`.
pub open spec fn has_token(tokens: Seq<TokenView>, token: Seq<char>) -> bool {
    exists|i: int| 0 <= i < tokens.len() && (#[trigger] tokens[i]).token == token
}

/// The number of rows of `rows` with the identity `id`.
pub open spec fn count_id(rows: Seq<SubscriptionView>, id: SubscriberId) -> nat
    decreases rows.len(),
{
    if rows.len() == 0 {
        0
    } else {
        count_id(rows.drop_last(), id) + if rows.last().id == id {
            1nat
        } else {
            0nat
        }
    }
}

/// The subscriber of the first row of `tokens` that holds `token`.
pub open spec fn find_token(tokens: Seq<TokenView>, token: Seq<char>) -> Option<SubscriberId>
    decreases tokens.len(),
{
    if tokens.len() == 0 {
        None
    } else if tokens[0].token == token {
        Some(tokens[0].subscriber_id)
    } else {
        find_token(tokens.drop_first(), token)
    }
}

/// `row` as it is once confirmed.
pub open spec fn confirmed(row: SubscriptionView) -> SubscriptionView {
    SubscriptionView { status: SubscriptionStatus::Confirmed, ..row }
}

/// `rows` after each row with the identity `id` was confirmed.
pub open spec fn confirm_rows(rows: Seq<SubscriptionView>, id: SubscriberId) -> Seq<
    SubscriptionView,
> {
    Seq::new(
        rows.len(),
        |i: int|
            if rows[i].id == id {
                confirmed(rows[i])
            } else {
                rows[i]
            },
    )
}

/// What the two tables hold.
pub struct Tables {
    pub subscriptions: Seq<SubscriptionView>,
    pub tokens: Seq<TokenView>,
}

impl Tables {
    /// The constraints of the schema: no identity and no token occurs twice.
    pub open spec fn well_formed(self) -> bool {
        &&& forall|i: int, j: int|
            0 <= i < j < self.subscriptions.len() ==> (#[trigger] self.subscriptions[i]).id != (
            #[trigger] self.subscriptions[j]).id
        &&& forall|i: int, j: int|
            0 <= i < j < self.tokens.len() ==> (#[trigger] self.tokens[i]).token != (
            #[trigger] self.tokens[j]).token
    }

    /// Two tables without a row.
    pub open spec fn empty() -> Tables {
        Tables { subscriptions: Seq::empty(), tokens: Seq::empty() }
    }

    /// Adds `row`, unless its identity is taken.
    pub open spec fn insert(self, row: SubscriptionView) -> (Tables, Result<(), StoreError>) {
        if has_id(self.subscriptions, row.id) {
            (self, Err(StoreError::Persistence))
        } else {
            (Tables { subscriptions: self.subscriptions.push(row), ..self }, Ok(()))
        }
    }

    /// Adds `row`, unless its token is taken.
    pub open spec fn link(self, row: TokenView) -> (Tables, Result<(), StoreError>) {
        if has_token(self.tokens, row.token) {
            (self, Err(StoreError::Persistence))
        } else {
            (Tables { tokens: self.tokens.push(row), ..self }, Ok(()))
        }
    }

    /// The subscriber that `token` was issued to.
    pub open spec fn resolve(self, token: Seq<char>) -> Result<SubscriberId, StoreError> {
        resolve_verdict(find_token(self.tokens, token))
    }

    /// Confirms the rows with the identity `id`; exactly one is a success.
    pub open spec fn confirm(self, id: SubscriberId) -> (Tables, Result<(), StoreError>) {
        (
            Tables { subscriptions: confirm_rows(self.subscriptions, id), ..self },
            confirm_verdict(count_id(self.subscriptions, id)),
        )
    }
}

/// Among the first `n + 1` rows one has the identity `id` where one of the
/// first `n` has it, or the one behind them.
pub proof fn lemma_has_id_step(rows: Seq<SubscriptionView>, id: SubscriberId, n: int)
    requires
        0 <= n < rows.len(),
    ensures
        has_id(rows.take(n + 1), id) <==> has_id(rows.take(n), id) || rows[n].id == id,
{
    let before = rows.take(n);
    let after = rows.take(n + 1);
    assert(after[n] == rows[n]);
    if has_id(before, id) {
        let k = choose|k: int| 0 <= k < before.len() && (#[trigger] before[k]).id == id;
        assert(after[k].id == id);
    }
    if has_id(after, id) && rows[n].id != id {
        let k = choose|k: int| 0 <= k < after.len() && (#[trigger] after[k]).id == id;
        assert(before[k].id == id);
    }
}

/// Among the first `n + 1` rows one holds `token` where one of the first
/// `n` holds it, or the one behind them.
pub proof fn lemma_has_token_step(tokens: Seq<TokenView>, token: Seq<char>, n: int)
    requires
        0 <= n < tokens.len(),
    ensures
        has_token(tokens.take(n + 1), token) <==> has_token(tokens.take(n), token)
            || tokens[n].token == token,
{
    let before = tokens.take(n);
    let after = tokens.take(n + 1);
    assert(after[n] == tokens[n]);
    if has_token(before, token) {
        let k = choose|k: int| 0 <= k < before.len() && (#[trigger] before[k]).token == token;
        assert(after[k].token == token);
    }
    if has_token(after, token) && tokens[n].token != token {
        let k = choose|k: int| 0 <= k < after.len() && (#[trigger] after[k]).token == token;
        assert(before[k].token == token);
    }
}

/// A row counts for `id` exactly where some row has that identity.
pub proof fn lemma_count_id(rows: Seq<SubscriptionView>, id: SubscriberId)
    ensures
        count_id(rows, id) <= rows.len(),
        count_id(rows, id) > 0 <==> has_id(rows, id),
    decreases rows.len(),
{
    if rows.len() > 0 {
        let front = rows.drop_last();
        lemma_count_id(front, id);
        if has_id(front, id) {
            let i = choose|i: int| 0 <= i < front.len() && (#[trigger] front[i]).id == id;
            assert(rows[i].id == id);
        }
        if has_id(rows, id) && rows.last().id != id {
            let i = choose|i: int| 0 <= i < rows.len() && (#[trigger] rows[i]).id == id;
            assert(front[i].id == id);
        }
    }
}

/// Where no identity occurs twice, at most one row counts for `id`.
pub proof fn lemma_count_id_distinct(rows: Seq<SubscriptionView>, id: SubscriberId)
    requires
        forall|i: int, j: int|
            0 <= i < j < rows.len() ==> (#[trigger] rows[i]).id != (#[trigger] rows[j]).id,
    ensures
        count_id(rows, id) <= 1,
    decreases rows.len(),
{
    if rows.len() > 0 {
        let front = rows.drop_last();
        assert forall|i: int, j: int| 0 <= i < j < front.len() implies (#[trigger] front[i]).id != (
        #[trigger] front[j]).id by {
            assert(front[i] == rows[i] && front[j] == rows[j]);
        }
        lemma_count_id_distinct(front, id);
        lemma_count_id(front, id);
        if rows.last().id == id && has_id(front, id) {
            let i = choose|i: int| 0 <= i < front.len() && (#[trigger] front[i]).id == id;
            assert(rows[i].id == id && rows[rows.len() - 1].id == id);
        }
    }
}

/// A token is found exactly where some row holds it.
pub proof fn lemma_find_token(tokens: Seq<TokenView>, token: Seq<char>)
    ensures
        find_token(tokens, token) is Some <==> has_token(tokens, token),
    decreases tokens.len(),
{
    if tokens.len() > 0 {
        let rest = tokens.drop_first();
        lemma_find_token(rest, token);
        if tokens[0].token != token {
            if has_token(rest, token) {
                let i = choose|i: int| 0 <= i < rest.len() && (#[trigger] rest[i]).token == token;
                assert(tokens[i + 1].token == token);
            }
            if has_token(tokens, token) {
                let i = choose|i: int|
                    0 <= i < tokens.len() && (#[trigger] tokens[i]).token == token;
                assert(rest[i - 1].token == token);
            }
        }
    }
}

/// The operations keep the constraints of the schema.
pub proof fn lemma_operations_keep_well_formed(
    tables: Tables,
    row: SubscriptionView,
    link: TokenView,
    id: SubscriberId,
)
    requires
        tables.well_formed(),
    ensures
        tables.insert(row).0.well_formed(),
        tables.link(link).0.well_formed(),
        tables.confirm(id).0.well_formed(),
{
}

/// The views of `rows`, in their order.
pub open spec fn rows_view(rows: Seq<Subscription>) -> Seq<SubscriptionView> {
    Seq::new(rows.len(), |i: int| rows[i]@)
}

/// The views of `tokens`, in their order.
pub open spec fn tokens_view(tokens: Seq<SubscriptionToken>) -> Seq<TokenView> {
    Seq::new(tokens.len(), |i: int| tokens[i]@)
}

/// The two tables held in memory, under the constraints of the schema.
pub struct SubscriptionStore {
    subscriptions: Vec<Subscription>,
    tokens: Vec<SubscriptionToken>,
}

impl View for SubscriptionStore {
    type V = Tables;

    closed spec fn view(&self) -> Tables {
        Tables {
            subscriptions: rows_view(self.subscriptions@),
            tokens: tokens_view(self.tokens@),
        }
    }
}

impl SubscriptionStore {
    /// Two empty tables.
    pub fn new() -> (store: SubscriptionStore)
        ensures
            store@ == Tables::empty(),
            store@.well_formed(),
    {
        let store = SubscriptionStore { subscriptions: Vec::new(), tokens: Vec::new() };
        assert(store@.subscriptions =~= Seq::empty());
        assert(store@.tokens =~= Seq::empty());
        store
    }

    /// The rows of the table of subscriptions.
    pub fn subscriptions(&self) -> (rows: &Vec<Subscription>)
        ensures
            rows_view(rows@) == self@.subscriptions,
    {
        &self.subscriptions
    }

    /// The rows of the table of tokens.
    pub fn tokens(&self) -> (rows: &Vec<SubscriptionToken>)
        ensures
            tokens_view(rows@) == self@.tokens,
    {
        &self.tokens
    }

    /// Adds `row` to the table of subscriptions. An identity that is taken is
    /// a violated constraint.
    pub fn insert_row(&mut self, row: Subscription) -> (r: Result<(), StoreError>)
        ensures
            (final(self)@, r) == old(self)@.insert(row@),
            old(self)@.well_formed() ==> final(self)@.well_formed(),
    {
        let mut i: usize = 0;
        let mut taken = false;
        while i < self.subscriptions.len()
            invariant
                i <= self.subscriptions.len(),
                *self == *old(self),
                taken == has_id(self@.subscriptions.take(i as int), row.id),
            decreases self.subscriptions.len() - i,
        {
            proof {
                lemma_has_id_step(self@.subscriptions, row.id, i as int);
            }
            if self.subscriptions[i].id == row.id {
                taken = true;
            }
            i = i + 1;
        }
        assert(self@.subscriptions.take(i as int) == self@.subscriptions);
        if taken {
            Err(StoreError::Persistence)
        } else {
            self.subscriptions.push(row);
            assert(self@.subscriptions =~= old(self)@.subscriptions.push(row@));
            assert(self@.tokens =~= old(self)@.tokens);
            Ok(())
        }
    }

    /// Creates the row of `new_subscriber`, with a fresh identity and as of
    /// now, awaiting confirmation, and hands out the identity. It fails only
    /// where the identity drawn is taken, and then adds nothing.
    pub fn insert_subscriber(&mut self, new_subscriber: &NewSubscriber) -> (r: Result<
        SubscriberId,
        StoreError,
    >)
        ensures
            r matches Ok(id) ==> is_random_uuid(id.0) && exists|subscribed_at: Timestamp|
                (final(self)@, Ok::<(), StoreError>(())) == old(self)@.insert(
                    #[trigger] pending_row(
                        id,
                        new_subscriber.email@,
                        new_subscriber.name@,
                        subscribed_at,
                    ),
                ),
            r matches Err(e) ==> e == StoreError::Persistence && final(self)@ == old(self)@
                && exists|id: SubscriberId|
                is_random_uuid(id.0) && #[trigger] has_id(old(self)@.subscriptions, id),
            old(self)@.well_formed() ==> final(self)@.well_formed(),
    {
        let row = Subscription::create(new_subscriber);
        let id = row.id;
        let ghost subscribed_at = row.subscribed_at;
        match self.insert_row(row) {
            Ok(()) => {
                assert((self@, Ok::<(), StoreError>(())) == old(self)@.insert(
                    pending_row(id, new_subscriber.email@, new_subscriber.name@, subscribed_at),
                ));
                Ok(id)
            },
            Err(e) => Err(e),
        }
    }

    /// Adds the row that links `token` to `subscriber_id`. A token that is
    /// taken is a violated constraint.
    pub fn link_token(&mut self, subscriber_id: SubscriberId, token: &str) -> (r: Result<
        (),
        StoreError,
    >)
        ensures
            (final(self)@, r) == old(self)@.link(TokenView { token: token@, subscriber_id }),
            old(self)@.well_formed() ==> final(self)@.well_formed(),
    {
        let token = String::from_str(token);
        let mut i: usize = 0;
        let mut taken = false;
        while i < self.tokens.len()
            invariant
                i <= self.tokens.len(),
                *self == *old(self),
                taken == has_token(self@.tokens.take(i as int), token@),
            decreases self.tokens.len() - i,
        {
            proof {
                lemma_has_token_step(self@.tokens, token@, i as int);
            }
            if self.tokens[i].token == token {
                taken = true;
            }
            i = i + 1;
        }
        assert(self@.tokens.take(i as int) == self@.tokens);
        if taken {
            Err(StoreError::Persistence)
        } else {
            let ghost row = TokenView { token: token@, subscriber_id };
            self.tokens.push(SubscriptionToken { token, subscriber_id });
            assert(self@.tokens =~= old(self)@.tokens.push(row));
            assert(self@.subscriptions =~= old(self)@.subscriptions);
            Ok(())
        }
    }

    /// The subscriber that `token` was issued to, or `NotFound`.
    pub fn resolve_token(&self, token: &str) -> (r: Result<SubscriberId, StoreError>)
        ensures
            r == self@.resolve(token@),
    {
        let token = String::from_str(token);
        let mut i: usize = 0;
        let mut found: Option<SubscriberId> = None;
        assert(self@.tokens.skip(0) == self@.tokens);
        while i < self.tokens.len() && found.is_none()
            invariant
                i <= self.tokens.len(),
                found is None ==> find_token(self@.tokens, token@) == find_token(
                    self@.tokens.skip(i as int),
                    token@,
                ),
                found is Some ==> found == find_token(self@.tokens, token@),
            decreases self.tokens.len() - i + if found is None { 1int } else { 0int },
        {
            proof {
                let rest = self@.tokens.skip(i as int);
                assert(rest[0] == self.tokens@[i as int]@);
                assert(rest.drop_first() == self@.tokens.skip(i + 1));
            }
            if self.tokens[i].token == token {
                found = Some(self.tokens[i].subscriber_id);
            } else {
                i = i + 1;
            }
        }
        resolve_outcome(found)
    }

    /// Confirms the rows with the identity `subscriber_id`, and judges by
    /// their number: exactly one is a success.
    pub fn confirm(&mut self, subscriber_id: SubscriberId) -> (r: Result<(), StoreError>)
        ensures
            (final(self)@, r) == old(self)@.confirm(subscriber_id),
            old(self)@.well_formed() ==> final(self)@.well_formed(),
            old(self)@.well_formed() ==> r != Err::<(), StoreError>(StoreError::Invariant),
    {
        let mut i: usize = 0;
        let mut rows_affected: u64 = 0;
        while i < self.subscriptions.len()
            invariant
                i <= self.subscriptions.len(),
                self.subscriptions.len() == old(self).subscriptions.len(),
                self.tokens == old(self).tokens,
                rows_affected == count_id(old(self)@.subscriptions.take(i as int), subscriber_id),
                rows_affected <= i,
                forall|k: int|
                    0 <= k < i ==> (#[trigger] self@.subscriptions[k]) == confirm_rows(
                        old(self)@.subscriptions,
                        subscriber_id,
                    )[k],
                forall|k: int|
                    i <= k < self.subscriptions.len() ==> (#[trigger] self@.subscriptions[k])
                        == old(self)@.subscriptions[k],
            decreases self.subscriptions.len() - i,
        {
            proof {
                let after = old(self)@.subscriptions.take(i + 1);
                assert(after.drop_last() == old(self)@.subscriptions.take(i as int));
                assert(after.last() == old(self)@.subscriptions[i as int]);
                assert(self@.subscriptions[i as int] == old(self)@.subscriptions[i as int]);
            }
            if self.subscriptions[i].id == subscriber_id {
                let ghost before = self@.subscriptions;
                self.subscriptions[i].status = SubscriptionStatus::Confirmed;
                rows_affected = rows_affected + 1;
                assert(forall|k: int|
                    0 <= k < self.subscriptions.len() && k != i ==> (
                    #[trigger] self@.subscriptions[k]) == before[k]);
                assert(self@.subscriptions[i as int] == confirmed(before[i as int]));
            }
            i = i + 1;
        }
        proof {
            assert(old(self)@.subscriptions.take(i as int) == old(self)@.subscriptions);
            assert(self@.subscriptions =~= confirm_rows(old(self)@.subscriptions, subscriber_id));
            assert(self@.tokens == old(self)@.tokens);
            if old(self)@.well_formed() {
                lemma_count_id_distinct(old(self)@.subscriptions, subscriber_id);
            }
        }
        confirm_outcome(rows_affected)
    }
}

} // verus!
