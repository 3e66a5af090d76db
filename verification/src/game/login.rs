//! Login: what the credential store's answers do to a session.
//!
//! The dispatcher answers a `login` command with a request to look the token
//! up. The caller asks the store and hands its answer to [`login`], which
//! either fails or asks for the refreshed record to be written back. The
//! caller hands the result of that write to [`confirm`], and only then is the
//! session bound. The store itself is outside this crate; the laws at the end
//! of this file are stated over a model of it.

use crate::db::find_user_by_token;
use crate::db::store_consistent;
use crate::db::update_user;
use crate::db::Store;
use crate::db::Timestamp;
use crate::db::User;
use crate::db::UserView;
use crate::errors::ErrorKind;
use crate::errors::TextError;
use crate::game::commands::auth_failure;
use crate::game::commands::dispatch_spec;
use crate::game::commands::outcome_view;
use crate::game::commands::store_failure;
use crate::game::commands::CommandsView;
use crate::game::commands::Outcome;
use crate::game::commands::Response;
use crate::game::commands::ResponseView;
use crate::text::str_eq;
use crate::ws::GameSession;
use crate::ws::GameSessionView;
use vstd::prelude::*;
use vstd::string::StringExecFns;

verus! {

/// What the credential store answers to a lookup: the user of the token, or
/// none, or a note on why the store could not answer.
pub type Answer = Result<Option<UserView>, Seq<char>>;

/// The mathematical value of the store's answer to a lookup.
pub open spec fn answer_view(answer: Result<Option<User>, String>) -> Answer {
    match answer {
        Ok(Some(user)) => Ok(Some(user@)),
        Ok(None) => Ok(None),
        Err(detail) => Err(detail@),
    }
}

/// The mathematical value of the store's answer to a write.
pub open spec fn written_view(written: Result<(), String>) -> Result<(), Seq<char>> {
    match written {
        Ok(()) => Ok(()),
        Err(detail) => Err(detail@),
    }
}

/// What the store's answer to the lookup of `token` does to a session, and
/// what is answered.
///
/// Where the store holds the user of the token, the record as seen now at
/// the session's address is to be written back, and the session keeps it
/// until the write is confirmed. Where the store holds none, the login fails.
/// A store that could not answer, a user with another token, and one that is
/// not valid are faults of the store. No failure changes the session.
pub open spec fn login_spec(
    session: GameSessionView,
    token: Seq<char>,
    answer: Answer,
    now: Timestamp,
) -> (GameSessionView, Outcome) {
    if session.closing {
        (session, Ok(ResponseView::Ignored))
    } else if token.len() == 0 {
        (session, Err(auth_failure("empty token"@)))
    } else {
        match answer {
            Err(detail) => (session, Err(store_failure(detail))),
            Ok(None) => (session, Err(auth_failure("unknown token"@))),
            Ok(Some(user)) => if user.login_token != token {
                (session, Err(store_failure("user found under another token"@)))
            } else if !user.valid() {
                (session, Err(store_failure("user record is not valid"@)))
            } else {
                let bound = user.seen(session.address, now);
                (
                    GameSessionView { pending: Some(bound), ..session },
                    Ok(ResponseView::Persist { user: bound }),
                )
            },
        }
    }
}

/// What the store's answer to the write does to a session, and what is
/// answered.
///
/// Where the record was written, the session is bound to the user and the
/// client is sent `login`. Where it was not, the login fails and the session
/// stays as it was before the login. Either way no login is under way
/// afterwards.
pub open spec fn confirm_spec(session: GameSessionView, written: Result<(), Seq<char>>) -> (
    GameSessionView,
    Outcome,
) {
    if session.closing {
        (session, Ok(ResponseView::Ignored))
    } else {
        match session.pending {
            None => (session, Err(store_failure("no login under way"@))),
            Some(bound) => match written {
                Ok(()) => (
                    GameSessionView { user: Some(bound), pending: None, ..session },
                    Ok(ResponseView::Text("login"@)),
                ),
                Err(detail) => (
                    GameSessionView { pending: None, ..session },
                    Err(store_failure(detail)),
                ),
            },
        }
    }
}

/// Continues a login with the credential store's answer to the lookup of
/// `token`, at the time `now`.
pub fn login(
    session: &mut GameSession,
    token: &str,
    answer: Result<Option<User>, String>,
    now: Timestamp,
) -> (r: Result<Response, TextError>)
    ensures
        (final(session)@, outcome_view(r)) == login_spec(
            old(session)@,
            token@,
            answer_view(answer),
            now,
        ),
        final(session)@.wf(),
{
    if session.is_closing() {
        return Ok(Response::Ignored);
    }
    if token.unicode_len() == 0 {
        return Err(TextError::failure(ErrorKind::Auth, "empty token", "invalid token"));
    }
    match answer {
        Err(detail) => Err(TextError::fault(ErrorKind::Store, detail.as_str())),
        Ok(None) => Err(TextError::failure(ErrorKind::Auth, "unknown token", "invalid token")),
        Ok(Some(user)) => {
            if !str_eq(user.login_token.as_str(), token) {
                Err(TextError::fault(ErrorKind::Store, "user found under another token"))
            } else if !user.is_valid() {
                Err(TextError::fault(ErrorKind::Store, "user record is not valid"))
            } else {
                let bound = user.seen(session.address(), now);
                session.hold(bound.clone());
                Ok(Response::Persist { user: bound })
            }
        },
    }
}

/// Ends a login with the credential store's answer to the write.
pub fn confirm(session: &mut GameSession, written: Result<(), String>) -> (r: Result<
    Response,
    TextError,
>)
    ensures
        (final(session)@, outcome_view(r)) == confirm_spec(old(session)@, written_view(written)),
        final(session)@.wf(),
{
    if session.is_closing() {
        return Ok(Response::Ignored);
    }
    if !session.has_pending_login() {
        return Err(TextError::fault(ErrorKind::Store, "no login under way"));
    }
    match written {
        Ok(()) => {
            session.settle();
            Ok(Response::Text(String::from_str("login")))
        },
        Err(detail) => {
            session.release();
            Err(TextError::fault(ErrorKind::Store, detail.as_str()))
        },
    }
}

/// The text that an outcome puts on the wire, if it puts any: the reply, or
/// the rendering of the error.
pub open spec fn wire_text(outcome: Outcome) -> Option<Seq<char>> {
    match outcome {
        Ok(ResponseView::Text(text)) => Some(text),
        Ok(ResponseView::Farewell(text)) => Some(text),
        Ok(ResponseView::Persist { user }) => None,
        Ok(ResponseView::Lookup { token }) => None,
        Ok(ResponseView::Ignored) => None,
        Err(error) => Some(error.rendering()),
    }
}

/// A login from start to end against a store that works: the command is
/// dispatched, the store is asked where the dispatcher says so, and the
/// record is written back where the login says so. The result is the store
/// and the session afterwards, and what ended the attempt.
pub open spec fn login_attempt(
    store: Store,
    session: GameSessionView,
    token: Seq<char>,
    now: Timestamp,
) -> (Store, GameSessionView, Outcome) {
    let (asked, first) = dispatch_spec(session, CommandsView::Login { token });
    match first {
        Ok(ResponseView::Lookup { token: wanted }) => {
            let (held, second) = login_spec(
                asked,
                wanted,
                Ok(find_user_by_token(store, wanted)),
                now,
            );
            match second {
                Ok(ResponseView::Persist { user }) => {
                    let (bound, last) = confirm_spec(held, Ok(()));
                    (update_user(store, user), bound, last)
                },
                _ => (store, held, second),
            }
        },
        _ => (store, asked, first),
    }
}

/// A login with a registered token succeeds: the session is bound to the
/// user of the token, the stored record carries the time of the login and
/// the session's address, and the client is sent `login`.
pub proof fn login_with_registered_token(
    store: Store,
    session: GameSessionView,
    token: Seq<char>,
    now: Timestamp,
)
    requires
        store_consistent(store),
        store.contains_key(token),
        !session.closing,
    ensures
        ({
            let (stored, next, outcome) = login_attempt(store, session, token, now);
            let bound = store[token].seen(session.address, now);
            let answer: Outcome = Ok(ResponseView::Text("login"@));
            &&& next == (GameSessionView { user: Some(bound), pending: None, ..session })
            &&& session.wf() ==> next.wf()
            &&& outcome == answer
            &&& wire_text(outcome) == Some("login"@)
            &&& find_user_by_token(stored, token) == Some(bound)
            &&& bound.last_login == now
            &&& bound.machine_address == session.address
            &&& store_consistent(stored)
        }),
{
    let bound = store[token].seen(session.address, now);
    crate::db::update_user_keeps_others(store, bound, token);
}

/// A login with any string that is no registered token fails, and every such
/// failure shows the client the same text: an empty string, a malformed token
/// and an unknown one cannot be told apart. Nothing is bound and nothing is
/// stored.
pub proof fn login_with_other_string(
    store: Store,
    session: GameSessionView,
    token: Seq<char>,
    now: Timestamp,
)
    requires
        store_consistent(store),
        !store.contains_key(token),
        !session.closing,
    ensures
        ({
            let (stored, next, outcome) = login_attempt(store, session, token, now);
            &&& stored == store
            &&& next == session
            &&& outcome is Err
            &&& outcome->Err_0.kind() == Some(ErrorKind::Auth)
            &&& outcome->Err_0.public_message() == "invalid token"@
            &&& wire_text(outcome) == Some("error: "@ + "invalid token"@ + "\n\n"@)
        }),
{
}

/// Where the store cannot answer the lookup, or cannot write the record
/// back, the login fails with the generic phrase, and the session is bound
/// as it was before: no login is half done.
pub proof fn store_fault_binds_nothing(
    session: GameSessionView,
    token: Seq<char>,
    found: UserView,
    now: Timestamp,
    detail: Seq<char>,
)
    requires
        !session.closing,
        session.pending.is_none(),
        token.len() > 0,
    ensures
        ({
            let (unasked, lookup) = login_spec(session, token, Err(detail), now);
            let (held, _) = login_spec(session, token, Ok(Some(found)), now);
            let (unwritten, write) = confirm_spec(held, Err(detail));
            &&& unasked == session
            &&& unwritten == session
            &&& lookup == Err::<ResponseView, _>(store_failure(detail))
            &&& write is Err
            &&& write->Err_0.kind() == Some(ErrorKind::Store)
            &&& wire_text(lookup) == Some("error: "@ + crate::errors::generic_message() + "\n\n"@)
            &&& wire_text(write) == wire_text(lookup)
        }),
{
}

/// Two sessions that log in with two different registered tokens are each
/// bound to the user of their own token, in whichever order the two logins
/// reach the store, and the store ends up the same.
pub proof fn logins_do_not_interfere(
    store: Store,
    a: GameSessionView,
    b: GameSessionView,
    token_a: Seq<char>,
    token_b: Seq<char>,
    now_a: Timestamp,
    now_b: Timestamp,
)
    requires
        store_consistent(store),
        store.contains_key(token_a),
        store.contains_key(token_b),
        token_a != token_b,
        !a.closing,
        !b.closing,
    ensures
        ({
            let (store_a, a_first, _) = login_attempt(store, a, token_a, now_a);
            let (store_ab, b_second, _) = login_attempt(store_a, b, token_b, now_b);
            let (store_b, b_first, _) = login_attempt(store, b, token_b, now_b);
            let (store_ba, a_second, _) = login_attempt(store_b, a, token_a, now_a);
            &&& a_first == a_second
            &&& b_first == b_second
            &&& store_ab == store_ba
            &&& a_first.user == Some(store[token_a].seen(a.address, now_a))
            &&& b_first.user == Some(store[token_b].seen(b.address, now_b))
            &&& a_first.user->0.login_token == token_a
            &&& b_first.user->0.login_token == token_b
            &&& a_first.id == a.id
            &&& b_first.id == b.id
        }),
{
    let bound_a = store[token_a].seen(a.address, now_a);
    let bound_b = store[token_b].seen(b.address, now_b);
    crate::db::update_user_keeps_others(store, bound_a, token_b);
    crate::db::update_user_keeps_others(store, bound_b, token_a);
    let store_a = update_user(store, bound_a);
    let store_b = update_user(store, bound_b);
    assert(update_user(store_a, bound_b) =~= update_user(store_b, bound_a));
}

/// What a login answers is decided by the session's state, the token and the
/// store's answers: neither the session's id, nor its address, nor the time
/// changes what the client is sent, nor whether the login succeeds.
pub proof fn login_is_deterministic(
    a: GameSessionView,
    b: GameSessionView,
    token: Seq<char>,
    answer: Answer,
    written: Result<(), Seq<char>>,
    now_a: Timestamp,
    now_b: Timestamp,
)
    requires
        a.closing == b.closing,
    ensures
        ({
            let (held_a, outcome_a) = login_spec(a, token, answer, now_a);
            let (held_b, outcome_b) = login_spec(b, token, answer, now_b);
            &&& wire_text(outcome_a) == wire_text(outcome_b)
            &&& outcome_a is Ok == outcome_b is Ok
            &&& outcome_a is Err ==> outcome_a == outcome_b
            &&& outcome_a is Ok ==> confirm_spec(held_a, written).1 == confirm_spec(
                held_b,
                written,
            ).1
        }),
{
}

} // verus!
