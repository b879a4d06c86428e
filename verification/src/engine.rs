//! Whole runs of the two flows against the tables, and what holds of them.
use crate::domain::subscriber_email::email_valid;
use crate::domain::subscriber_name::name_valid;
use crate::email_client::{delivery_verdict, is_success_status, Delivery};
use crate::form::{form_pairs, FormError};
use crate::routes::subscriptions::{
    confirmation_email_view, confirmation_link_text, form_fields, html_body_text, signup_next,
    text_body_text, EmailContentView, SignupActionView, SignupEventView, SignupStateView,
};
use crate::routes::subscriptions_confirm::{
    confirm_next, token_field, ConfirmActionView, ConfirmEventView, ConfirmState,
};
use crate::routes::Outcome;
use crate::store::{
    pending_row, SubscriberId, SubscriptionStatus, SubscriptionView, Timestamp, TokenView,
};
use crate::tables::{
    confirm_rows, confirmed, count_id, find_token, has_id, has_token, lemma_count_id,
    lemma_count_id_distinct, lemma_find_token, Tables,
};
use vstd::prelude::*;

verus! {

/// What stands outside one sign-up and is not in its hands: the identity
/// and the time that the store gives the new row, and how the attempt to
/// reach the mail endpoint ends.
pub struct Surroundings {
    pub id: SubscriberId,
    pub now: Timestamp,
    pub delivery: Delivery,
}

/// How a sign-up ended: what the tables hold, how the request was
/// answered, and the messages that were handed to the mail endpoint.
pub struct SignupRun {
    pub tables: Tables,
    pub outcome: Outcome,
    pub sent: Seq<EmailContentView>,
}

/// How a confirmation ended.
pub struct ConfirmRun {
    pub tables: Tables,
    pub outcome: Outcome,
}

/// The number of steps that a sign-up in `state` has before it at most.
pub open spec fn signup_steps_left(state: SignupStateView) -> nat {
    match state {
        SignupStateView::AwaitingSubmission => 4,
        SignupStateView::AwaitingInsert { .. } => 3,
        SignupStateView::AwaitingTokenLink { .. } => 2,
        SignupStateView::AwaitingDispatch => 1,
        SignupStateView::Finished => 0,
    }
}

/// Carries out on `tables` what a step of a sign-up asks for, and tells
/// what happened.
pub open spec fn signup_perform(tables: Tables, action: SignupActionView, around: Surroundings) -> (
    Tables,
    SignupEventView,
    Seq<EmailContentView>,
) {
    match action {
        SignupActionView::InsertSubscriber { email, name } => {
            let (tables, answer) = tables.insert(pending_row(around.id, email, name, around.now));
            let inserted = match answer {
                Ok(()) => Ok(around.id),
                Err(e) => Err(e),
            };
            (tables, SignupEventView::Inserted(inserted), Seq::empty())
        },
        SignupActionView::LinkToken { subscriber_id, token } => {
            let (tables, answer) = tables.link(TokenView { token, subscriber_id });
            (tables, SignupEventView::TokenLinked(answer), Seq::empty())
        },
        SignupActionView::SendEmail(email) => (
            tables,
            SignupEventView::Dispatched(delivery_verdict(around.delivery)),
            seq![email],
        ),
        SignupActionView::Respond(_) => (
            tables,
            SignupEventView::Dispatched(delivery_verdict(around.delivery)),
            Seq::empty(),
        ),
    }
}

/// The rest of a sign-up that is in `state` when `event` happens: each
/// action is carried out and its answer handed back, until the request is
/// answered.
pub open spec fn signup_run_from(
    state: SignupStateView,
    event: SignupEventView,
    tables: Tables,
    sent: Seq<EmailContentView>,
    base_url: Seq<char>,
    token: Seq<char>,
    around: Surroundings,
) -> SignupRun
    decreases signup_steps_left(state),
{
    let (next, action) = signup_next(state, event, base_url, token);
    match action {
        SignupActionView::Respond(outcome) => SignupRun { tables, outcome, sent },
        _ => {
            let (tables, answer, handed) = signup_perform(tables, action, around);
            signup_run_from(next, answer, tables, sent + handed, base_url, token, around)
        },
    }
}

/// A whole sign-up with the form `body`, on `tables`.
pub open spec fn signup_run(
    tables: Tables,
    body: Seq<u8>,
    base_url: Seq<char>,
    token: Seq<char>,
    around: Surroundings,
) -> SignupRun {
    signup_run_from(
        SignupStateView::AwaitingSubmission,
        SignupEventView::Submitted { body },
        tables,
        Seq::empty(),
        base_url,
        token,
        around,
    )
}

/// The number of steps that a confirmation in `state` has before it at
/// most.
pub open spec fn confirm_steps_left(state: ConfirmState) -> nat {
    match state {
        ConfirmState::AwaitingRequest => 3,
        ConfirmState::AwaitingResolution => 2,
        ConfirmState::AwaitingConfirmation => 1,
        ConfirmState::Finished => 0,
    }
}

/// Carries out on `tables` what a step of a confirmation asks for, and
/// tells what happened.
pub open spec fn confirm_perform(tables: Tables, action: ConfirmActionView) -> (
    Tables,
    ConfirmEventView,
) {
    match action {
        ConfirmActionView::ResolveToken { token } => (
            tables,
            ConfirmEventView::Resolved(tables.resolve(token)),
        ),
        ConfirmActionView::ConfirmSubscriber { subscriber_id } => {
            let (tables, answer) = tables.confirm(subscriber_id);
            (tables, ConfirmEventView::Confirmed(answer))
        },
        ConfirmActionView::Respond(_) => (tables, ConfirmEventView::Confirmed(Ok(()))),
    }
}

/// The rest of a confirmation that is in `state` when `event` happens.
pub open spec fn confirm_run_from(state: ConfirmState, event: ConfirmEventView, tables: Tables) -> ConfirmRun
    decreases confirm_steps_left(state),
{
    let (next, action) = confirm_next(state, event);
    match action {
        ConfirmActionView::Respond(outcome) => ConfirmRun { tables, outcome },
        _ => {
            let (tables, answer) = confirm_perform(tables, action);
            confirm_run_from(next, answer, tables)
        },
    }
}

/// A whole confirmation of the link with the query string `query`, on
/// `tables`.
pub open spec fn confirm_run(tables: Tables, query: Seq<u8>) -> ConfirmRun {
    confirm_run_from(ConfirmState::AwaitingRequest, ConfirmEventView::Requested { query }, tables)
}

/// Whether `part` stands in `text` at the position `at`.
pub open spec fn occurs_at(text: Seq<char>, part: Seq<char>, at: int) -> bool {
    &&& 0 <= at
    &&& at + part.len() <= text.len()
    &&& text.subrange(at, at + part.len()) == part
}

/// What the tables hold after a sign-up of `email` and `name` that got as
/// far as the dispatch: one more row, awaiting confirmation, and one more
/// token, issued to it.
pub open spec fn signed_up(
    tables: Tables,
    email: Seq<char>,
    name: Seq<char>,
    token: Seq<char>,
    around: Surroundings,
) -> Tables {
    Tables {
        subscriptions: tables.subscriptions.push(pending_row(around.id, email, name, around.now)),
        tokens: tables.tokens.push(TokenView { token, subscriber_id: around.id }),
    }
}

/// Each body of the confirmation email holds the confirmation link, the
/// same in both.
pub proof fn lemma_link_in_both_bodies(recipient: Seq<char>, base_url: Seq<char>, token: Seq<char>)
    ensures
        ({
            let link = confirmation_link_text(base_url, token);
            let email = confirmation_email_view(recipient, base_url, token);
            &&& exists|at: int| occurs_at(email.html_body, link, at)
            &&& exists|at: int| occurs_at(email.text_body, link, at)
        }),
{
    let link = confirmation_link_text(base_url, token);
    let email = confirmation_email_view(recipient, base_url, token);
    let html_before = "Welcome to our newsletter!<br />Click <a href=\""@;
    let text_before = "Welcome to our newsletter!\nVisit "@;
    assert(html_body_text(link).subrange(
        html_before.len() as int,
        (html_before.len() + link.len()) as int,
    ) =~= link);
    assert(occurs_at(email.html_body, link, html_before.len() as int));
    assert(text_body_text(link).subrange(
        text_before.len() as int,
        (text_before.len() + link.len()) as int,
    ) =~= link);
    assert(occurs_at(email.text_body, link, text_before.len() as int));
}

/// A sign-up with an email address and a name that are both valid, an
/// identity and a token that are not taken, and a mail endpoint that
/// accepts the message, is answered as accepted; it adds exactly one row,
/// which awaits confirmation, and one token, and hands exactly one message
/// to the mail endpoint: the confirmation email.
pub proof fn theorem_signup_succeeds(
    tables: Tables,
    body: Seq<u8>,
    email: Seq<char>,
    name: Seq<char>,
    base_url: Seq<char>,
    token: Seq<char>,
    around: Surroundings,
)
    requires
        form_fields(form_pairs(body)) == Ok::<(Seq<char>, Seq<char>), FormError>(
            (email, name),
        ),
        email_valid(email),
        name_valid(name),
        !has_id(tables.subscriptions, around.id),
        !has_token(tables.tokens, token),
        around.delivery matches Delivery::Responded { status } && is_success_status(status),
    ensures
        ({
            let run = signup_run(tables, body, base_url, token, around);
            &&& run.outcome == Outcome::Accepted
            &&& run.tables == signed_up(tables, email, name, token, around)
            &&& run.sent == seq![confirmation_email_view(email, base_url, token)]
        }),
{
    reveal_with_fuel(signup_run_from, 5);
    let run = signup_run(tables, body, base_url, token, around);
    assert(run.sent =~= seq![confirmation_email_view(email, base_url, token)]);
}

/// Where the mail endpoint answers with a status that is no success, or
/// does not answer in time, or is not reached, the sign-up is answered as a
/// server error, and the row, still awaiting confirmation, and the token
/// stay in the tables.
pub proof fn theorem_failed_dispatch_keeps_rows(
    tables: Tables,
    body: Seq<u8>,
    email: Seq<char>,
    name: Seq<char>,
    base_url: Seq<char>,
    token: Seq<char>,
    around: Surroundings,
)
    requires
        form_fields(form_pairs(body)) == Ok::<(Seq<char>, Seq<char>), FormError>(
            (email, name),
        ),
        email_valid(email),
        name_valid(name),
        !has_id(tables.subscriptions, around.id),
        !has_token(tables.tokens, token),
        !(around.delivery matches Delivery::Responded { status } && is_success_status(status)),
    ensures
        ({
            let run = signup_run(tables, body, base_url, token, around);
            &&& run.outcome == Outcome::ServerError
            &&& run.tables == signed_up(tables, email, name, token, around)
            &&& run.tables.subscriptions.last().status == SubscriptionStatus::PendingConfirmation
            &&& run.sent == seq![confirmation_email_view(email, base_url, token)]
        }),
{
    reveal_with_fuel(signup_run_from, 5);
    let run = signup_run(tables, body, base_url, token, around);
    assert(run.sent =~= seq![confirmation_email_view(email, base_url, token)]);
}

/// A form that lacks a field or holds one twice, and a field that is
/// refused, end the sign-up as a bad request: the tables stay as they were
/// and nothing is sent.
pub proof fn theorem_bad_form_touches_nothing(
    tables: Tables,
    body: Seq<u8>,
    base_url: Seq<char>,
    token: Seq<char>,
    around: Surroundings,
)
    requires
        match form_fields(form_pairs(body)) {
            Err(_) => true,
            Ok((email, name)) => !email_valid(email) || !name_valid(name),
        },
    ensures
        signup_run(tables, body, base_url, token, around) == (SignupRun {
            tables,
            outcome: Outcome::BadRequest,
            sent: Seq::empty(),
        }),
{
    reveal_with_fuel(signup_run_from, 2);
}

/// Where the store refuses the new row, the sign-up is answered as a
/// server error: no token is kept and nothing is sent.
pub proof fn theorem_failed_insert_issues_no_token(
    tables: Tables,
    body: Seq<u8>,
    email: Seq<char>,
    name: Seq<char>,
    base_url: Seq<char>,
    token: Seq<char>,
    around: Surroundings,
)
    requires
        form_fields(form_pairs(body)) == Ok::<(Seq<char>, Seq<char>), FormError>(
            (email, name),
        ),
        email_valid(email),
        name_valid(name),
        has_id(tables.subscriptions, around.id),
    ensures
        signup_run(tables, body, base_url, token, around) == (SignupRun {
            tables,
            outcome: Outcome::ServerError,
            sent: Seq::empty(),
        }),
{
    reveal_with_fuel(signup_run_from, 3);
    assert(Seq::<EmailContentView>::empty() + Seq::<EmailContentView>::empty()
        =~= Seq::<EmailContentView>::empty());
}

/// Where the store refuses the token, the sign-up is answered as a server
/// error: the row stays, awaiting confirmation, and nothing is sent.
pub proof fn theorem_failed_link_sends_nothing(
    tables: Tables,
    body: Seq<u8>,
    email: Seq<char>,
    name: Seq<char>,
    base_url: Seq<char>,
    token: Seq<char>,
    around: Surroundings,
)
    requires
        form_fields(form_pairs(body)) == Ok::<(Seq<char>, Seq<char>), FormError>(
            (email, name),
        ),
        email_valid(email),
        name_valid(name),
        !has_id(tables.subscriptions, around.id),
        has_token(tables.tokens, token),
    ensures
        signup_run(tables, body, base_url, token, around) == (SignupRun {
            tables: Tables {
                subscriptions: tables.subscriptions.push(
                    pending_row(around.id, email, name, around.now),
                ),
                ..tables
            },
            outcome: Outcome::ServerError,
            sent: Seq::empty(),
        }),
{
    reveal_with_fuel(signup_run_from, 4);
    assert(Seq::<EmailContentView>::empty() + Seq::<EmailContentView>::empty()
        =~= Seq::<EmailContentView>::empty());
}

/// Whatever is submitted and whatever happens outside, a sign-up hands at
/// most one message to the mail endpoint, and none before the row and the
/// token are in the tables; and each row that it leaves behind awaits
/// confirmation.
pub proof fn theorem_signup_keeps_its_order(
    tables: Tables,
    body: Seq<u8>,
    base_url: Seq<char>,
    token: Seq<char>,
    around: Surroundings,
)
    ensures
        ({
            let run = signup_run(tables, body, base_url, token, around);
            &&& run.sent.len() <= 1
            &&& run.sent.len() == 1 ==> exists|email: Seq<char>, name: Seq<char>|
                run.tables == #[trigger] signed_up(tables, email, name, token, around)
            &&& run.outcome == Outcome::Accepted ==> run.sent.len() == 1
            &&& run.tables.subscriptions == tables.subscriptions || exists|
                email: Seq<char>,
                name: Seq<char>,
            |
                run.tables.subscriptions == tables.subscriptions.push(
                    #[trigger] pending_row(around.id, email, name, around.now),
                )
        }),
{
    reveal_with_fuel(signup_run_from, 5);
    let run = signup_run(tables, body, base_url, token, around);
    let nothing = Seq::<EmailContentView>::empty();
    assert(nothing + nothing =~= nothing);
    match form_fields(form_pairs(body)) {
        Ok((email, name)) => {
            if email_valid(email) && name_valid(name) && !has_id(tables.subscriptions, around.id) {
                assert(run.tables.subscriptions == tables.subscriptions.push(
                    pending_row(around.id, email, name, around.now),
                ));
                if !has_token(tables.tokens, token) {
                    let email_view = confirmation_email_view(email, base_url, token);
                    assert(nothing + nothing + seq![email_view] =~= seq![email_view]);
                    assert(run.tables == signed_up(tables, email, name, token, around));
                }
            }
        },
        Err(_) => {},
    }
}

/// Whatever is requested, a confirmation adds and removes no row and no
/// token: each row stays as it was or is confirmed.
pub proof fn theorem_confirmation_only_confirms(tables: Tables, query: Seq<u8>)
    ensures
        ({
            let run = confirm_run(tables, query);
            &&& run.tables.tokens == tables.tokens
            &&& run.tables.subscriptions.len() == tables.subscriptions.len()
            &&& forall|i: int|
                0 <= i < tables.subscriptions.len() ==> (#[trigger] run.tables.subscriptions[i])
                    == tables.subscriptions[i] || run.tables.subscriptions[i] == confirmed(
                    tables.subscriptions[i],
                )
        }),
{
    reveal_with_fuel(confirm_run_from, 4);
}

/// Both flows keep the constraints of the schema.
pub proof fn theorem_runs_keep_the_constraints(
    tables: Tables,
    body: Seq<u8>,
    query: Seq<u8>,
    base_url: Seq<char>,
    token: Seq<char>,
    around: Surroundings,
)
    requires
        tables.well_formed(),
    ensures
        signup_run(tables, body, base_url, token, around).tables.well_formed(),
        confirm_run(tables, query).tables.well_formed(),
{
    reveal_with_fuel(signup_run_from, 5);
    reveal_with_fuel(confirm_run_from, 4);
}

/// A confirmation request whose query string holds no token, or more than
/// one, is answered as a bad request at its first step: the store is not
/// asked anything.
pub proof fn theorem_missing_token_is_rejected_at_once(tables: Tables, query: Seq<u8>)
    requires
        token_field(form_pairs(query)) is Err,
    ensures
        confirm_next(ConfirmState::AwaitingRequest, ConfirmEventView::Requested { query }).1
            == ConfirmActionView::Respond(Outcome::BadRequest),
        confirm_run(tables, query) == (ConfirmRun { tables, outcome: Outcome::BadRequest }),
{
    reveal_with_fuel(confirm_run_from, 2);
}

/// A confirmation with a token that the tables do not hold is answered as
/// a bad request, and the tables stay as they were.
pub proof fn theorem_unknown_token_changes_nothing(tables: Tables, query: Seq<u8>, token: Seq<char>)
    requires
        token_field(form_pairs(query)) == Ok::<Seq<char>, FormError>(token),
        !has_token(tables.tokens, token),
    ensures
        confirm_run(tables, query) == (ConfirmRun { tables, outcome: Outcome::BadRequest }),
{
    reveal_with_fuel(confirm_run_from, 3);
    lemma_find_token(tables.tokens, token);
}

/// The link of a sign-up that has just been made confirms it: the request
/// is answered as accepted, the row of that sign-up is confirmed, and every
/// other row and every token stays as it was.
pub proof fn theorem_link_confirms_the_subscriber(
    tables: Tables,
    email: Seq<char>,
    name: Seq<char>,
    token: Seq<char>,
    around: Surroundings,
    query: Seq<u8>,
)
    requires
        !has_id(tables.subscriptions, around.id),
        !has_token(tables.tokens, token),
        token_field(form_pairs(query)) == Ok::<Seq<char>, FormError>(token),
    ensures
        ({
            let before = signed_up(tables, email, name, token, around);
            let run = confirm_run(before, query);
            &&& run.outcome == Outcome::Accepted
            &&& run.tables.tokens == before.tokens
            &&& run.tables.subscriptions == tables.subscriptions.push(
                confirmed(pending_row(around.id, email, name, around.now)),
            )
        }),
{
    reveal_with_fuel(confirm_run_from, 4);
    let before = signed_up(tables, email, name, token, around);
    let row = pending_row(around.id, email, name, around.now);
    lemma_find_token_last(tables.tokens, TokenView { token, subscriber_id: around.id });
    lemma_count_id(tables.subscriptions, around.id);
    assert(before.subscriptions.drop_last() == tables.subscriptions);
    assert(count_id(before.subscriptions, around.id) == 1);
    assert(confirm_rows(before.subscriptions, around.id) =~= tables.subscriptions.push(
        confirmed(row),
    )) by {
        assert forall|i: int| 0 <= i < tables.subscriptions.len() implies (
        #[trigger] tables.subscriptions[i]).id != around.id by {}
    }
}

/// A token that is added behind rows that do not hold it is found there.
pub proof fn lemma_find_token_last(tokens: Seq<TokenView>, row: TokenView)
    requires
        !has_token(tokens, row.token),
    ensures
        find_token(tokens.push(row), row.token) == Some(row.subscriber_id),
    decreases tokens.len(),
{
    let all = tokens.push(row);
    if tokens.len() == 0 {
        assert(all[0] == row);
    } else {
        assert(all[0] == tokens[0]);
        assert(tokens[0].token != row.token);
        assert(all.drop_first() == tokens.drop_first().push(row));
        assert(!has_token(tokens.drop_first(), row.token)) by {
            if has_token(tokens.drop_first(), row.token) {
                let i = choose|i: int|
                    0 <= i < tokens.drop_first().len() && (#[trigger] tokens.drop_first()[i]).token
                        == row.token;
                assert(tokens[i + 1].token == row.token);
            }
        }
        lemma_find_token_last(tokens.drop_first(), row);
    }
}

/// To confirm once more a subscription that is confirmed changes nothing,
/// and is answered as accepted again.
pub proof fn theorem_confirming_again_changes_nothing(tables: Tables, id: SubscriberId)
    requires
        tables.well_formed(),
        has_id(tables.subscriptions, id),
    ensures
        ({
            let (once, first) = tables.confirm(id);
            let (twice, second) = once.confirm(id);
            first is Ok && second is Ok && twice == once
        }),
{
    lemma_count_id_distinct(tables.subscriptions, id);
    lemma_count_id(tables.subscriptions, id);
    let once = tables.confirm(id).0;
    lemma_count_id_confirm(tables.subscriptions, id);
    assert(confirm_rows(once.subscriptions, id) =~= once.subscriptions);
}

/// To confirm rows changes no identity, so it changes no count.
pub proof fn lemma_count_id_confirm(rows: Seq<SubscriptionView>, id: SubscriberId)
    ensures
        count_id(confirm_rows(rows, id), id) == count_id(rows, id),
    decreases rows.len(),
{
    if rows.len() > 0 {
        lemma_count_id_confirm(rows.drop_last(), id);
        assert(confirm_rows(rows, id).drop_last() =~= confirm_rows(rows.drop_last(), id));
    }
}

} // verus!
