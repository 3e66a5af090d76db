//! The command grammar and its dispatcher.
//!
//! A line is split into words as a POSIX shell would split it, the words are
//! matched against a closed grammar, and the command is run against the
//! session. A line outside the grammar is answered with one fixed message,
//! whatever was wrong with it.

use crate::db::User;
use crate::db::UserView;
use crate::errors::ErrorKind;
use crate::errors::TextError;
use crate::errors::TextErrorView;
use crate::text::str_eq;
use crate::ws::GameSession;
use crate::ws::GameSessionView;
use vstd::prelude::*;
use vstd::string::StringExecFns;

verus! {

/// A command of the protocol.
#[derive(Debug, PartialEq, Eq)]
pub enum Commands {
    /// Ping and you shall be ponged.
    Ping,
    /// End the session.
    Exit,
    /// Bind the session to the user who holds `token`.
    Login { token: String },
    /// Create a user.
    Register,
}

/// The mathematical value of a [`Commands`].
pub enum CommandsView {
    Ping,
    Exit,
    Login { token: Seq<char> },
    Register,
}

impl View for Commands {
    type V = CommandsView;

    open spec fn view(&self) -> CommandsView {
        match self {
            Commands::Ping => CommandsView::Ping,
            Commands::Exit => CommandsView::Exit,
            Commands::Login { token } => CommandsView::Login { token: token@ },
            Commands::Register => CommandsView::Register,
        }
    }
}

/// Why a line is outside the grammar.
#[derive(Clone, Copy, Debug, PartialEq, Eq, Structural)]
pub enum GrammarError {
    /// The line holds no word.
    Empty,
    /// The first word names no command.
    UnknownCommand,
    /// `login` came without a token.
    MissingArgument,
    /// More words follow than the command takes.
    UnexpectedArgument,
}

/// What the caller is to do after an input was handled.
#[derive(Debug, PartialEq, Eq)]
pub enum Response {
    /// Send the text. The session carries on.
    Text(String),
    /// Send the text, then close the connection.
    Farewell(String),
    /// Ask the credential store for the user with this token, and hand the
    /// answer to [`login`](crate::game::login::login).
    Lookup { token: String },
    /// Write `user` back to the credential store, and hand the result to
    /// [`confirm`](crate::game::login::confirm).
    Persist { user: User },
    /// Do nothing: the session is ending.
    Ignored,
}

/// The mathematical value of a [`Response`].
pub enum ResponseView {
    Text(Seq<char>),
    Farewell(Seq<char>),
    Lookup { token: Seq<char> },
    Persist { user: UserView },
    Ignored,
}

impl View for Response {
    type V = ResponseView;

    open spec fn view(&self) -> ResponseView {
        match self {
            Response::Text(text) => ResponseView::Text(text@),
            Response::Farewell(text) => ResponseView::Farewell(text@),
            Response::Lookup { token } => ResponseView::Lookup { token: token@ },
            Response::Persist { user } => ResponseView::Persist { user: user@ },
            Response::Ignored => ResponseView::Ignored,
        }
    }
}

/// How an input ended: with something for the caller to do, or with an error.
pub type Outcome = Result<ResponseView, TextErrorView<()>>;

/// The mathematical value of what the dispatcher returns.
pub open spec fn outcome_view(r: Result<Response, TextError>) -> Outcome {
    match r {
        Ok(response) => Ok(response@),
        Err(error) => Err(error@),
    }
}

/// The mathematical value of what the parser returns.
pub open spec fn parsed_view(r: Result<Commands, GrammarError>) -> Result<
    CommandsView,
    GrammarError,
> {
    match r {
        Ok(command) => Ok(command@),
        Err(error) => Err(error),
    }
}

/// The words that `shlex::split` makes of a line, or `None` where it
/// reports the line as erroneous.
pub uninterp spec fn shlex_split(line: Seq<char>) -> Option<Seq<Seq<char>>>;

/// Splits a line into words with `shlex::split`.
///
/// Trusted: the result is what `shlex::split` returns for the line, which
/// depends on the line alone. It is `None` where the line ends inside a
/// quotation or right after a backslash.
#[verifier::external_body]
fn split(line: &str) -> (words: Option<Vec<String>>)
    ensures
        words.deep_view() == shlex_split(line@),
{
    shlex::split(line)
}

/// The command that a command without arguments stands for, which nothing may
/// follow.
pub open spec fn alone(words: Seq<Seq<char>>, command: CommandsView) -> Result<
    CommandsView,
    GrammarError,
> {
    if words.len() == 1 {
        Ok(command)
    } else {
        Err(GrammarError::UnexpectedArgument)
    }
}

/// The grammar: the first word selects the command, and the number of words
/// must be what the command takes.
pub open spec fn grammar(words: Seq<Seq<char>>) -> Result<CommandsView, GrammarError> {
    if words.len() == 0 {
        Err(GrammarError::Empty)
    } else if words[0] == "ping"@ {
        alone(words, CommandsView::Ping)
    } else if words[0] == "exit"@ || words[0] == "quit"@ {
        alone(words, CommandsView::Exit)
    } else if words[0] == "register"@ {
        alone(words, CommandsView::Register)
    } else if words[0] == "login"@ {
        if words.len() == 1 {
            Err(GrammarError::MissingArgument)
        } else if words.len() == 2 {
            Ok(CommandsView::Login { token: words[1] })
        } else {
            Err(GrammarError::UnexpectedArgument)
        }
    } else {
        Err(GrammarError::UnknownCommand)
    }
}

/// Matches the words of a line against the grammar.
pub fn parse(words: &Vec<String>) -> (r: Result<Commands, GrammarError>)
    ensures
        parsed_view(r) == grammar(words.deep_view()),
{
    let ghost model = words.deep_view();
    if words.len() == 0 {
        return Err(GrammarError::Empty);
    }
    assert(model[0] == words@[0]@);
    let name = words[0].as_str();
    let command = if str_eq(name, "ping") {
        Commands::Ping
    } else if str_eq(name, "exit") || str_eq(name, "quit") {
        Commands::Exit
    } else if str_eq(name, "register") {
        Commands::Register
    } else if str_eq(name, "login") {
        if words.len() == 1 {
            return Err(GrammarError::MissingArgument);
        } else if words.len() == 2 {
            assert(model[1] == words@[1]@);
            return Ok(Commands::Login { token: words[1].clone() });
        } else {
            return Err(GrammarError::UnexpectedArgument);
        }
    } else {
        return Err(GrammarError::UnknownCommand);
    };
    if words.len() == 1 {
        Ok(command)
    } else {
        Err(GrammarError::UnexpectedArgument)
    }
}

/// The note that the local log gets for a line outside the grammar.
pub open spec fn grammar_detail(error: GrammarError) -> Seq<char> {
    match error {
        GrammarError::Empty => "empty line"@,
        GrammarError::UnknownCommand => "unknown command"@,
        GrammarError::MissingArgument => "missing argument"@,
        GrammarError::UnexpectedArgument => "unexpected argument"@,
    }
}

/// The error for a line that `shlex` reports as erroneous.
pub open spec fn quote_failure() -> TextErrorView<()> {
    TextErrorView::failure(ErrorKind::Parse, "unbalanced quotes"@, "erroneous quotes"@)
}

/// The error for a line outside the grammar. The client is shown the same
/// message whatever was wrong.
pub open spec fn grammar_failure(error: GrammarError) -> TextErrorView<()> {
    TextErrorView::failure(ErrorKind::Parse, grammar_detail(error), "invalid command"@)
}

/// The error for a login that fails. The client is shown the same message
/// whether the token was malformed or unknown.
pub open spec fn auth_failure(detail: Seq<char>) -> TextErrorView<()> {
    TextErrorView::failure(ErrorKind::Auth, detail, "invalid token"@)
}

/// The error for a fault of the credential store: it could not answer, or
/// its answer cannot be right. The client is shown the generic phrase.
pub open spec fn store_failure(detail: Seq<char>) -> TextErrorView<()> {
    TextErrorView::fault(ErrorKind::Store, detail)
}

/// What a command does to a session, and what is answered.
///
/// A session that is ending takes no command. `ping` is answered with `pong`.
/// `exit` ends the session with a farewell. `login` with an empty token
/// fails; with any other token it asks for the credential store to be
/// consulted. `register` is answered with `register`.
pub open spec fn dispatch_spec(session: GameSessionView, command: CommandsView) -> (
    GameSessionView,
    Outcome,
) {
    if session.closing {
        (session, Ok(ResponseView::Ignored))
    } else {
        match command {
            CommandsView::Ping => (session, Ok(ResponseView::Text("pong"@))),
            CommandsView::Exit => (
                GameSessionView { closing: true, ..session },
                Ok(ResponseView::Farewell("Goodbye."@)),
            ),
            CommandsView::Login { token } => if token.len() == 0 {
                (session, Err(auth_failure("empty token"@)))
            } else {
                (session, Ok(ResponseView::Lookup { token }))
            },
            CommandsView::Register => (session, Ok(ResponseView::Text("register"@))),
        }
    }
}

/// What the words of a line do to a session, and what is answered. `None`
/// stands for a line that could not be split.
pub open spec fn execute_words_spec(session: GameSessionView, words: Option<Seq<Seq<char>>>) -> (
    GameSessionView,
    Outcome,
) {
    if session.closing {
        (session, Ok(ResponseView::Ignored))
    } else {
        match words {
            None => (session, Err(quote_failure())),
            Some(words) => match grammar(words) {
                Err(error) => (session, Err(grammar_failure(error))),
                Ok(command) => dispatch_spec(session, command),
            },
        }
    }
}

/// What a line does to a session, and what is answered.
pub open spec fn execute_spec(session: GameSessionView, line: Seq<char>) -> (
    GameSessionView,
    Outcome,
) {
    execute_words_spec(session, shlex_split(line))
}

/// The error for a line outside the grammar.
fn reject(error: GrammarError) -> (e: TextError)
    ensures
        e@ == grammar_failure(error),
{
    let detail = match error {
        GrammarError::Empty => "empty line",
        GrammarError::UnknownCommand => "unknown command",
        GrammarError::MissingArgument => "missing argument",
        GrammarError::UnexpectedArgument => "unexpected argument",
    };
    TextError::failure(ErrorKind::Parse, detail, "invalid command")
}

/// Runs a command against a session.
pub fn dispatch(session: &mut GameSession, command: Commands) -> (r: Result<Response, TextError>)
    ensures
        (final(session)@, outcome_view(r)) == dispatch_spec(old(session)@, command@),
        final(session)@.wf(),
{
    if session.is_closing() {
        return Ok(Response::Ignored);
    }
    match command {
        Commands::Ping => Ok(Response::Text(String::from_str("pong"))),
        Commands::Exit => {
            session.close();
            Ok(Response::Farewell(String::from_str("Goodbye.")))
        },
        Commands::Login { token } => {
            if token.as_str().unicode_len() == 0 {
                Err(TextError::failure(ErrorKind::Auth, "empty token", "invalid token"))
            } else {
                Ok(Response::Lookup { token })
            }
        },
        Commands::Register => Ok(Response::Text(String::from_str("register"))),
    }
}

/// Runs the words of a line against a session. `None` stands for a line that
/// could not be split.
pub fn execute_words(session: &mut GameSession, words: Option<Vec<String>>) -> (r: Result<
    Response,
    TextError,
>)
    ensures
        (final(session)@, outcome_view(r)) == execute_words_spec(
            old(session)@,
            words.deep_view(),
        ),
        final(session)@.wf(),
{
    if session.is_closing() {
        return Ok(Response::Ignored);
    }
    let words = match words {
        Some(words) => words,
        None => {
            return Err(
                TextError::failure(ErrorKind::Parse, "unbalanced quotes", "erroneous quotes"),
            );
        },
    };
    match parse(&words) {
        Ok(command) => dispatch(session, command),
        Err(error) => Err(reject(error)),
    }
}

/// Splits a line into words and runs them against a session.
pub fn execute(session: &mut GameSession, line: &str) -> (r: Result<Response, TextError>)
    ensures
        (final(session)@, outcome_view(r)) == execute_spec(old(session)@, line@),
        final(session)@.wf(),
{
    let words = split(line);
    execute_words(session, words)
}

/// A line that cannot be split, as one with a quotation left open, is a parse
/// error with the public message `erroneous quotes`; the session is as it
/// was.
pub proof fn unsplittable_line_is_parse_error(session: GameSessionView, line: Seq<char>)
    requires
        !session.closing,
    ensures
        shlex_split(line).is_none() ==> execute_spec(session, line) == (
            session,
            Err::<ResponseView, _>(quote_failure()),
        ),
        execute_words_spec(session, None) == (session, Err::<ResponseView, _>(quote_failure())),
        quote_failure().kind() == Some(ErrorKind::Parse),
        quote_failure().public_message() == "erroneous quotes"@,
        quote_failure().rendering() == "error: "@ + "erroneous quotes"@ + "\n\n"@,
{
}

/// A line outside the grammar is a parse error, and the client is shown the
/// same message whichever rule the line broke; the session is as it was.
pub proof fn line_outside_grammar_is_parse_error(
    session: GameSessionView,
    words: Seq<Seq<char>>,
)
    requires
        !session.closing,
        grammar(words) is Err,
    ensures
        ({
            let (next, outcome) = execute_words_spec(session, Some(words));
            &&& next == session
            &&& outcome is Err
            &&& outcome->Err_0.kind() == Some(ErrorKind::Parse)
            &&& outcome->Err_0.public_message() == "invalid command"@
        }),
{
}

/// Dispatch is a function of the session's state and the command. Of the
/// state only the closing flag is read: two sessions that agree on it get the
/// same answer to the same command, whatever their ids, addresses and users,
/// and agree on the flag afterwards.
pub proof fn dispatch_is_deterministic(
    a: GameSessionView,
    b: GameSessionView,
    command: CommandsView,
)
    requires
        a.closing == b.closing,
    ensures
        dispatch_spec(a, command).1 == dispatch_spec(b, command).1,
        dispatch_spec(a, command).0.closing == dispatch_spec(b, command).0.closing,
        dispatch_spec(a, command).0 == (GameSessionView {
            closing: dispatch_spec(a, command).0.closing,
            ..a
        }),
{
}

/// `ping` is answered with exactly `pong`, whether the session is bound to a
/// user or not, and changes nothing.
pub proof fn ping_is_answered_with_pong(session: GameSessionView)
    requires
        !session.closing,
    ensures
        dispatch_spec(session, CommandsView::Ping) == (
            session,
            Ok::<_, TextErrorView<()>>(ResponseView::Text("pong"@)),
        ),
        execute_words_spec(session, Some(seq!["ping"@])) == (
            session,
            Ok::<_, TextErrorView<()>>(ResponseView::Text("pong"@)),
        ),
        "pong"@ == seq!['p', 'o', 'n', 'g'],
{
    reveal_strlit("pong");
    assert("pong"@ =~= seq!['p', 'o', 'n', 'g']);
}

/// `exit` and `quit` end the session with a farewell, and a session that is
/// ending takes no further input: whatever words arrive, nothing is answered
/// and nothing changes.
pub proof fn exit_ends_the_session(session: GameSessionView, later: Option<Seq<Seq<char>>>)
    requires
        !session.closing,
    ensures
        ({
            let ended = GameSessionView { closing: true, ..session };
            let farewell: Outcome = Ok(ResponseView::Farewell("Goodbye."@));
            let nothing: Outcome = Ok(ResponseView::Ignored);
            &&& execute_words_spec(session, Some(seq!["exit"@])) == (ended, farewell)
            &&& execute_words_spec(session, Some(seq!["quit"@])) == (ended, farewell)
            &&& execute_words_spec(ended, later) == (ended, nothing)
            &&& forall|command: CommandsView| #[trigger]
                dispatch_spec(ended, command) == (ended, nothing)
        }),
{
    reveal_strlit("ping");
    reveal_strlit("exit");
    reveal_strlit("quit");
    let exit = seq!["exit"@];
    let quit = seq!["quit"@];
    assert(exit[0] == "exit"@);
    assert(quit[0] == "quit"@);
    assert("exit"@[0] == 'e' && "ping"@[0] == 'p' && "quit"@[0] == 'q');
    assert(grammar(exit) == Ok::<_, GrammarError>(CommandsView::Exit));
    assert(grammar(quit) == Ok::<_, GrammarError>(CommandsView::Exit));
}

/// The token of a `login` is the word as the splitter gave it: the grammar
/// neither trims it nor splits it again, so whitespace inside it stays.
pub proof fn token_is_kept_whole(session: GameSessionView, token: Seq<char>)
    requires
        !session.closing,
        token.len() > 0,
    ensures
        grammar(seq!["login"@, token]) == Ok::<_, GrammarError>(CommandsView::Login { token }),
        execute_words_spec(session, Some(seq!["login"@, token])) == (
            session,
            Ok::<_, TextErrorView<()>>(ResponseView::Lookup { token }),
        ),
{
    reveal_strlit("ping");
    reveal_strlit("exit");
    reveal_strlit("quit");
    reveal_strlit("register");
    reveal_strlit("login");
    let words = seq!["login"@, token];
    assert(words[0] == "login"@);
    assert(words[1] == token);
    assert("login"@[0] == 'l');
    assert("ping"@[0] == 'p' && "exit"@[0] == 'e' && "quit"@[0] == 'q' && "register"@[0] == 'r');
}

/// Only `exit` and `quit` ask for the connection to be closed, and an error
/// changes nothing: after a line that fails, the session is as it was, and
/// open.
pub proof fn only_exit_closes(session: GameSessionView, words: Option<Seq<Seq<char>>>)
    requires
        !session.closing,
    ensures
        ({
            let (next, outcome) = execute_words_spec(session, words);
            let exit: Result<CommandsView, GrammarError> = Ok(CommandsView::Exit);
            let asked = words is Some && grammar(words->0) == exit;
            &&& next.closing == asked
            &&& (outcome is Ok && outcome->Ok_0 is Farewell) == asked
            &&& outcome is Err ==> next == session
            &&& next == (GameSessionView { closing: asked, ..session })
        }),
{
}

} // verus!
