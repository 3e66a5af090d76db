//! The registry of open sessions, and the session of one connection.
//!
//! A text frame carries an envelope: a name that the client claims and a
//! command line. No other shape of frame is taken: a text frame that is no
//! envelope and a binary frame are both answered with an error. Decoding the
//! envelope is left to the caller, who hands over the decoded value.

use crate::db::User;
use crate::db::UserView;
use crate::errors::ErrorKind;
use crate::errors::TextError;
use crate::errors::TextErrorView;
use crate::game::commands;
use crate::game::commands::Response;
use crate::game::commands::ResponseView;
use crate::text::trim;
use crate::text::trimmed;
use vstd::prelude::*;
use vstd::string::StringExecFns;

verus! {

/// What names a session among those that are open.
pub type SessionID = u64;

/// The mathematical value of a [`GameSession`].
pub struct GameSessionView {
    /// The id that the registry gave the session.
    pub id: SessionID,
    /// The address of the peer, as the transport reported it.
    pub address: Seq<char>,
    /// The user that the session is bound to, once a login has succeeded.
    pub user: Option<UserView>,
    /// The user of a login that waits for the credential store to confirm
    /// that it has written the record back.
    pub pending: Option<UserView>,
    /// Whether the session has been told to end.
    pub closing: bool,
}

impl GameSessionView {
    /// Whether `user` may be bound to this session: it is valid, and was last
    /// seen at this session's address.
    pub open spec fn admits(self, user: UserView) -> bool {
        user.valid() && user.machine_address == self.address
    }

    /// The bound user, and the one of a login under way, may be bound to this
    /// session.
    pub open spec fn wf(self) -> bool {
        &&& self.user matches Some(user) ==> self.admits(user)
        &&& self.pending matches Some(user) ==> self.admits(user)
    }

    /// The session as it is when the connection is accepted.
    pub open spec fn fresh(id: SessionID, address: Seq<char>) -> GameSessionView {
        GameSessionView { id, address, user: None, pending: None, closing: false }
    }
}

/// The state of one connection. The task that serves the connection owns it.
#[derive(Debug)]
pub struct GameSession {
    id: SessionID,
    address: String,
    user: Option<User>,
    pending: Option<User>,
    closing: bool,
}

impl View for GameSession {
    type V = GameSessionView;

    closed spec fn view(&self) -> GameSessionView {
        GameSessionView {
            id: self.id,
            address: self.address@,
            user: match self.user {
                Some(user) => Some(user@),
                None => None,
            },
            pending: match self.pending {
                Some(user) => Some(user@),
                None => None,
            },
            closing: self.closing,
        }
    }
}

impl GameSession {
    #[verifier::type_invariant]
    spec fn inv(&self) -> bool {
        self@.wf()
    }

    /// The session's id.
    pub fn id(&self) -> (r: &SessionID)
        ensures
            *r == self@.id,
    {
        &self.id
    }

    /// The address of the peer.
    pub fn address(&self) -> (r: &str)
        ensures
            r@ == self@.address,
    {
        self.address.as_str()
    }

    /// The user that the session is bound to, if a login has succeeded.
    pub fn user(&self) -> (r: Option<&User>)
        ensures
            match r {
                Some(user) => self@.user == Some(user@),
                None => self@.user.is_none(),
            },
    {
        self.user.as_ref()
    }

    /// Whether a login has bound the session to a user.
    pub fn is_authenticated(&self) -> (r: bool)
        ensures
            r == self@.user.is_some(),
    {
        self.user.is_some()
    }

    /// Whether the session has been told to end. A session is well formed
    /// at all times, and this says so too.
    pub fn is_closing(&self) -> (r: bool)
        ensures
            r == self@.closing,
            self@.wf(),
    {
        proof {
            use_type_invariant(self);
        }
        self.closing
    }

    /// Whether a login waits for the credential store to confirm the write.
    pub fn has_pending_login(&self) -> (r: bool)
        ensures
            r == self@.pending.is_some(),
    {
        self.pending.is_some()
    }

    /// Marks the session as ending.
    pub(crate) fn close(&mut self)
        ensures
            final(self)@ == (GameSessionView { closing: true, ..old(self)@ }),
            final(self)@.wf(),
    {
        proof {
            use_type_invariant(&*self);
        }
        self.closing = true;
    }

    /// Keeps `user` until the credential store has confirmed the write.
    pub(crate) fn hold(&mut self, user: User)
        requires
            old(self)@.admits(user@),
        ensures
            final(self)@ == (GameSessionView { pending: Some(user@), ..old(self)@ }),
            final(self)@.wf(),
    {
        proof {
            use_type_invariant(&*self);
        }
        self.pending = Some(user);
    }

    /// Forgets the login under way.
    pub(crate) fn release(&mut self)
        ensures
            final(self)@ == (GameSessionView { pending: None, ..old(self)@ }),
            final(self)@.wf(),
    {
        proof {
            use_type_invariant(&*self);
        }
        self.pending = None;
    }

    /// Binds the session to the user of the login under way.
    pub(crate) fn settle(&mut self)
        requires
            old(self)@.pending.is_some(),
        ensures
            final(self)@ == (GameSessionView {
                user: old(self)@.pending,
                pending: None,
                ..old(self)@
            }),
            final(self)@.wf(),
    {
        proof {
            use_type_invariant(&*self);
        }
        let mut pending: Option<User> = None;
        core::mem::swap(&mut self.pending, &mut pending);
        self.user = pending;
    }
}

/// A frame of the client: a name that the client claims, and a command line.
///
/// The name is advisory. Nothing is decided by it: only the binding that a
/// login gave the session says who the client is.
#[derive(Debug, PartialEq, Eq)]
pub struct ClientMessage {
    pub username: String,
    pub command: String,
}

/// The mathematical value of a [`ClientMessage`].
pub struct ClientMessageView {
    pub username: Seq<char>,
    pub command: Seq<char>,
}

impl View for ClientMessage {
    type V = ClientMessageView;

    open spec fn view(&self) -> ClientMessageView {
        ClientMessageView { username: self.username@, command: self.command@ }
    }
}

/// The mathematical value of a decoded frame. `None` stands for a frame that
/// is no well-formed envelope.
pub open spec fn message_view(message: Option<ClientMessage>) -> Option<ClientMessageView> {
    match message {
        Some(message) => Some(message@),
        None => None,
    }
}

/// The error for a frame that is no well-formed envelope.
pub open spec fn envelope_failure() -> TextErrorView<()> {
    TextErrorView::failure(ErrorKind::Parse, "malformed envelope"@, "malformed message"@)
}

/// The error for a binary frame.
pub open spec fn binary_failure() -> TextErrorView<()> {
    TextErrorView::failure(
        ErrorKind::Parse,
        "binary frame"@,
        "binary frames are not supported"@,
    )
}

/// What is answered where an input ended in `outcome`: the response, or the
/// rendering of the error.
pub open spec fn reply_spec(outcome: commands::Outcome) -> ResponseView {
    match outcome {
        Ok(response) => response,
        Err(error) => ResponseView::Text(error.rendering()),
    }
}

/// What is answered where an input ended in `outcome`: the response, or the
/// rendering of the error. This is where an error is recovered: the session
/// carries on.
pub fn reply(outcome: Result<Response, TextError>) -> (r: Response)
    ensures
        r@ == reply_spec(commands::outcome_view(outcome)),
{
    match outcome {
        Ok(response) => response,
        Err(error) => Response::Text(error.to_string()),
    }
}

/// The error for a write or a close that failed on the connection.
pub open spec fn transport_failure(detail: Seq<char>) -> TextErrorView<()> {
    TextErrorView::fault(ErrorKind::Transport, detail)
}

/// What a text frame does to a session, and what is answered.
///
/// A session that is ending takes no frame. A frame that is no envelope is
/// answered with an error. The command line of an envelope is trimmed and
/// run, and an error of the run is answered with its rendering.
pub open spec fn on_text_spec(session: GameSessionView, message: Option<ClientMessageView>) -> (
    GameSessionView,
    ResponseView,
) {
    if session.closing {
        (session, ResponseView::Ignored)
    } else {
        match message {
            None => (session, ResponseView::Text(envelope_failure().rendering())),
            Some(message) => {
                let (next, outcome) = commands::execute_spec(session, trimmed(message.command));
                (next, reply_spec(outcome))
            },
        }
    }
}

/// What is answered to a binary frame.
pub open spec fn on_binary_spec(session: GameSessionView) -> ResponseView {
    if session.closing {
        ResponseView::Ignored
    } else {
        ResponseView::Text(binary_failure().rendering())
    }
}

impl GameSession {
    /// Handles a text frame. `message` is the decoded envelope, or `None`
    /// where the frame is no well-formed envelope.
    pub fn on_text(&mut self, message: Option<ClientMessage>) -> (r: Response)
        ensures
            (final(self)@, r@) == on_text_spec(old(self)@, message_view(message)),
            final(self)@.wf(),
    {
        if self.is_closing() {
            return Response::Ignored;
        }
        let message = match message {
            Some(message) => message,
            None => {
                let error = TextError::failure(
                    ErrorKind::Parse,
                    "malformed envelope",
                    "malformed message",
                );
                return Response::Text(error.to_string());
            },
        };
        let command = trim(message.command.as_str());
        let outcome = commands::execute(self, command);
        reply(outcome)
    }

    /// Handles a write or a close that failed on the connection. Such a
    /// failure is final: the session is ending from now on, a login under way
    /// is forgotten, and nothing is sent. The error is for the local log.
    pub fn on_transport_failure(&mut self, detail: &str) -> (e: TextError)
        ensures
            final(self)@ == (GameSessionView { closing: true, pending: None, ..old(self)@ }),
            final(self)@.wf(),
            e@ == transport_failure(detail@),
    {
        self.release();
        self.close();
        TextError::fault(ErrorKind::Transport, detail)
    }

    /// Handles a binary frame: the protocol has none, so it is refused with
    /// an error, and the session carries on.
    pub fn on_binary(&self, _bytes: Vec<u8>) -> (r: Response)
        ensures
            r@ == on_binary_spec(self@),
    {
        if self.is_closing() {
            return Response::Ignored;
        }
        let error = TextError::failure(
            ErrorKind::Parse,
            "binary frame",
            "binary frames are not supported",
        );
        Response::Text(error.to_string())
    }
}

/// The banner that greets a new connection.
pub open spec fn welcome() -> Seq<char> {
    "Welcome to nightRAID.\n\nPlease register using the \"register\" command.\nIf you are already registered, use the \"login\" command.\nIf you lost your access token, contact m1nt_.\n\n"@
}

/// The mathematical value of a [`GameServer`].
pub struct GameServerView {
    /// The id that the next session gets.
    pub next_id: SessionID,
    /// The ids of the sessions that are open.
    pub open: Set<SessionID>,
}

impl GameServerView {
    /// Every open session has an id that was given out already, and there are
    /// finitely many.
    pub open spec fn wf(self) -> bool {
        &&& self.open.finite()
        &&& forall|id: SessionID| self.open.contains(id) ==> id < self.next_id
    }

    /// The registry with no session.
    pub open spec fn empty() -> GameServerView {
        GameServerView { next_id: 0, open: Set::empty() }
    }

    /// The registry after a connection was accepted, with the session that
    /// was made for it; `None` where no id is left to give.
    pub open spec fn connect(self, address: Seq<char>) -> Option<(GameServerView, GameSessionView)> {
        if self.next_id == SessionID::MAX {
            None
        } else {
            Some(
                (
                    GameServerView {
                        next_id: (self.next_id + 1) as SessionID,
                        open: self.open.insert(self.next_id),
                    },
                    GameSessionView::fresh(self.next_id, address),
                ),
            )
        }
    }

    /// The registry after the session `id` has gone.
    pub open spec fn disconnect(self, id: SessionID) -> GameServerView {
        GameServerView { next_id: self.next_id, open: self.open.remove(id) }
    }
}

/// Whether the ids stand in strictly rising order.
pub open spec fn rising(ids: Seq<SessionID>) -> bool {
    forall|i: int, j: int| 0 <= i < j < ids.len() ==> ids[i] < ids[j]
}

/// The registry of the sessions that are open.
///
/// Ids come from a counter that only rises, so no id is given twice.
#[derive(Debug)]
pub struct GameServer {
    next_id: SessionID,
    open: Vec<SessionID>,
}

impl View for GameServer {
    type V = GameServerView;

    closed spec fn view(&self) -> GameServerView {
        GameServerView { next_id: self.next_id, open: self.open@.to_set() }
    }
}

/// Where `id` stands among rising ids, if it is there.
fn position(ids: &Vec<SessionID>, id: SessionID) -> (r: Option<usize>)
    requires
        rising(ids@),
    ensures
        match r {
            Some(i) => i < ids.len() && ids[i as int] == id,
            None => !ids@.contains(id),
        },
{
    let mut low: usize = 0;
    let mut high: usize = ids.len();
    while low < high
        invariant
            low <= high <= ids.len(),
            rising(ids@),
            forall|k: int| 0 <= k < low ==> ids[k] < id,
            forall|k: int| high <= k < ids.len() ==> ids[k] > id,
        decreases high - low,
    {
        let middle = low + (high - low) / 2;
        let found = ids[middle];
        if found == id {
            return Some(middle);
        } else if found < id {
            low = middle + 1;
        } else {
            high = middle;
        }
    }
    None
}

impl GameServer {
    #[verifier::type_invariant]
    spec fn inv(&self) -> bool {
        &&& rising(self.open@)
        &&& forall|i: int| 0 <= i < self.open.len() ==> self.open[i] < self.next_id
    }

    /// A registry with no session.
    pub fn new() -> (r: GameServer)
        ensures
            r@ == GameServerView::empty(),
            r@.wf(),
    {
        GameServer::with_first_id(0)
    }

    /// A registry with no session, whose first session gets the id `first`.
    pub fn with_first_id(first: SessionID) -> (r: GameServer)
        ensures
            r@ == (GameServerView { next_id: first, open: Set::empty() }),
            r@.wf(),
    {
        let r = GameServer { next_id: first, open: Vec::new() };
        assert(r.open@.to_set() =~= Set::empty());
        r
    }

    /// Accepts a connection from `address`: gives it an id that no open
    /// session has, makes its session, and registers it. The answer holds the
    /// session and the banner to send. `None` where no id is left to give.
    pub fn on_connect(&mut self, address: &str) -> (r: Option<(GameSession, Response)>)
        ensures
            old(self)@.wf(),
            final(self)@.wf(),
            match r {
                Some((session, banner)) => {
                    &&& old(self)@.connect(address@) == Some((final(self)@, session@))
                    &&& !old(self)@.open.contains(session@.id)
                    &&& banner@ == ResponseView::Text(welcome())
                },
                None => old(self)@.connect(address@).is_none() && final(self)@ == old(self)@,
            },
    {
        proof {
            use_type_invariant(&*self);
            lemma_registry_wf(self.open@, self.next_id);
        }
        if self.next_id == SessionID::MAX {
            return None;
        }
        let id = self.next_id;
        let ghost before = self.open@;
        let mut open: Vec<SessionID> = Vec::new();
        core::mem::swap(&mut self.open, &mut open);
        self.next_id = id + 1;
        open.push(id);
        core::mem::swap(&mut self.open, &mut open);
        proof {
            assert(self.open@.to_set() =~= before.to_set().insert(id)) by {
                lemma_push_to_set(before, id);
            }
            assert(!before.contains(id));
            lemma_registry_wf(self.open@, self.next_id);
        }
        let session = GameSession {
            id,
            address: String::from_str(address),
            user: None,
            pending: None,
            closing: false,
        };
        let banner = Response::Text(
            String::from_str(
                "Welcome to nightRAID.\n\nPlease register using the \"register\" command.\nIf you are already registered, use the \"login\" command.\nIf you lost your access token, contact m1nt_.\n\n",
            ),
        );
        Some((session, banner))
    }

    /// Takes the session `id` out of the registry. Where it is not there,
    /// nothing changes. No other session is touched.
    pub fn on_disconnect(&mut self, id: SessionID)
        ensures
            final(self)@ == old(self)@.disconnect(id),
            final(self)@.wf(),
    {
        proof {
            use_type_invariant(&*self);
        }
        let ghost before = self.open@;
        match position(&self.open, id) {
            Some(i) => {
                let mut open: Vec<SessionID> = Vec::new();
                core::mem::swap(&mut self.open, &mut open);
                open.remove(i);
                proof {
                    lemma_remove_to_set(before, i as int);
                }
                core::mem::swap(&mut self.open, &mut open);
                proof {
                    lemma_registry_wf(self.open@, self.next_id);
                }
            },
            None => {
                proof {
                    assert(before.to_set().remove(id) =~= before.to_set());
                    lemma_registry_wf(self.open@, self.next_id);
                }
            },
        }
    }

    /// Tells whether the session `id` is open.
    pub fn is_open(&self, id: SessionID) -> (r: bool)
        ensures
            r == self@.open.contains(id),
    {
        proof {
            use_type_invariant(self);
        }
        position(&self.open, id).is_some()
    }

    /// The number of sessions that are open.
    pub fn open_count(&self) -> (r: usize)
        ensures
            r == self@.open.len(),
    {
        proof {
            use_type_invariant(self);
            lemma_rising_no_duplicates(self.open@);
            self.open@.unique_seq_to_set();
        }
        self.open.len()
    }
}

/// Rising ids hold no id twice.
proof fn lemma_rising_no_duplicates(ids: Seq<SessionID>)
    requires
        rising(ids),
    ensures
        ids.no_duplicates(),
{
    assert forall|i: int, j: int| 0 <= i < ids.len() && 0 <= j < ids.len() && i != j implies ids[i]
        != ids[j] by {
        if i < j {
            assert(ids[i] < ids[j]);
        } else {
            assert(ids[j] < ids[i]);
        }
    }
}

/// The set of ids below a bound is well formed.
proof fn lemma_registry_wf(ids: Seq<SessionID>, next_id: SessionID)
    requires
        forall|i: int| 0 <= i < ids.len() ==> ids[i] < next_id,
    ensures
        (GameServerView { next_id, open: ids.to_set() }).wf(),
{
    vstd::seq_lib::seq_to_set_is_finite(ids);
    assert forall|id: SessionID| ids.to_set().contains(id) implies id < next_id by {
        let i = choose|i: int| 0 <= i < ids.len() && ids[i] == id;
        assert(ids[i] < next_id);
    }
}

/// Appending an id adds it to the set.
proof fn lemma_push_to_set(ids: Seq<SessionID>, id: SessionID)
    ensures
        ids.push(id).to_set() =~= ids.to_set().insert(id),
{
    let after = ids.push(id);
    assert forall|x: SessionID| after.to_set().contains(x) <==> ids.to_set().insert(id).contains(
        x,
    ) by {
        if after.contains(x) {
            let i = choose|i: int| 0 <= i < after.len() && after[i] == x;
            if i < ids.len() {
                assert(ids[i] == x);
            }
        }
        if ids.contains(x) {
            let i = choose|i: int| 0 <= i < ids.len() && ids[i] == x;
            assert(after[i] == x);
        }
        if x == id {
            assert(after[ids.len() as int] == x);
        }
    }
}

/// Taking the id at `i` out of rising ids takes it out of the set, and leaves
/// the ids rising.
proof fn lemma_remove_to_set(ids: Seq<SessionID>, i: int)
    requires
        rising(ids),
        0 <= i < ids.len(),
    ensures
        ids.remove(i).to_set() =~= ids.to_set().remove(ids[i]),
        rising(ids.remove(i)),
{
    let after = ids.remove(i);
    assert forall|x: SessionID| after.to_set().contains(x) <==> ids.to_set().remove(
        ids[i],
    ).contains(x) by {
        if after.contains(x) {
            let k = choose|k: int| 0 <= k < after.len() && after[k] == x;
            if k < i {
                assert(ids[k] == x);
                assert(ids[k] < ids[i]);
            } else {
                assert(ids[k + 1] == x);
                assert(ids[i] < ids[k + 1]);
            }
        }
        if ids.contains(x) && x != ids[i] {
            let k = choose|k: int| 0 <= k < ids.len() && ids[k] == x;
            if k < i {
                assert(after[k] == x);
            } else {
                assert(after[k - 1] == x);
            }
        }
    }
    assert forall|a: int, b: int| 0 <= a < b < after.len() implies after[a] < after[b] by {
        let a0 = if a < i { a } else { a + 1 };
        let b0 = if b < i { b } else { b + 1 };
        assert(ids[a0] < ids[b0]);
    }
}

/// A frame that is no well-formed envelope is answered with a parse error,
/// and the session is as it was.
pub proof fn malformed_envelope_is_parse_error(session: GameSessionView)
    requires
        !session.closing,
    ensures
        on_text_spec(session, None) == (
            session,
            ResponseView::Text("error: "@ + "malformed message"@ + "\n\n"@),
        ),
        envelope_failure().kind() == Some(ErrorKind::Parse),
{
}

/// The name that a client claims decides nothing: two envelopes with the same
/// command line are handled alike.
pub proof fn claimed_name_decides_nothing(
    session: GameSessionView,
    a: ClientMessageView,
    b: ClientMessageView,
)
    requires
        a.command == b.command,
    ensures
        on_text_spec(session, Some(a)) == on_text_spec(session, Some(b)),
{
}

/// A session that is ending takes no frame: nothing is answered and nothing
/// changes, whatever arrives.
pub proof fn ending_session_takes_no_frame(
    session: GameSessionView,
    message: Option<ClientMessageView>,
)
    requires
        session.closing,
    ensures
        on_text_spec(session, message) == (session, ResponseView::Ignored),
        on_binary_spec(session) == ResponseView::Ignored,
{
}

/// What happens to a registry: a connection is accepted, or a session goes.
pub enum RegistryEvent {
    Connect { address: Seq<char> },
    Disconnect { id: SessionID },
}

impl GameServerView {
    /// The registry after one event. A connection that cannot be given an id
    /// leaves it as it was.
    pub open spec fn step(self, event: RegistryEvent) -> GameServerView {
        match event {
            RegistryEvent::Connect { address } => match self.connect(address) {
                Some((next, _)) => next,
                None => self,
            },
            RegistryEvent::Disconnect { id } => self.disconnect(id),
        }
    }

    /// The registry after a run of events.
    pub open spec fn run(self, events: Seq<RegistryEvent>) -> GameServerView
        decreases events.len(),
    {
        if events.len() == 0 {
            self
        } else {
            self.run(events.drop_last()).step(events.last())
        }
    }
}

/// A new session gets an id that no open session has, and that no session
/// had before; the other sessions stay as they were.
pub proof fn connect_gives_fresh_id(server: GameServerView, address: Seq<char>)
    requires
        server.wf(),
        server.connect(address).is_some(),
    ensures
        ({
            let (next, session) = server.connect(address).unwrap();
            &&& next.wf()
            &&& session == GameSessionView::fresh(server.next_id, address)
            &&& !server.open.contains(session.id)
            &&& next.open.contains(session.id)
            &&& forall|id: SessionID|
                id != session.id ==> next.open.contains(id) == server.open.contains(id)
        }),
{
}

/// Taking a session out of the registry twice is the same as once, and
/// touches no other session.
pub proof fn disconnect_is_idempotent(server: GameServerView, id: SessionID)
    requires
        server.wf(),
    ensures
        server.disconnect(id).wf(),
        !server.disconnect(id).open.contains(id),
        server.disconnect(id).disconnect(id) == server.disconnect(id),
        forall|other: SessionID|
            other != id ==> server.disconnect(id).open.contains(other) == server.open.contains(
                other,
            ),
{
    assert(server.open.remove(id).remove(id) =~= server.open.remove(id));
}

/// An id is not given twice: a session that has gone does not come back,
/// whatever happens to the registry afterwards.
pub proof fn gone_session_stays_gone(
    server: GameServerView,
    events: Seq<RegistryEvent>,
    id: SessionID,
)
    requires
        server.wf(),
        id < server.next_id,
        !server.open.contains(id),
    ensures
        server.run(events).wf(),
        server.run(events).next_id >= server.next_id,
        !server.run(events).open.contains(id),
    decreases events.len(),
{
    if events.len() > 0 {
        gone_session_stays_gone(server, events.drop_last(), id);
    }
}

} // verus!
