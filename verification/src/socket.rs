//! The enrollment protocol: its messages, how the server answers each one,
//! and the life of one administrative connection.
//!
//! The transport belongs to the caller. A store that can be called in place
//! is served by `handle_request`, or by `Connection::serve` where a whole
//! connection is followed; one that must be awaited is served in two halves,
//! `plan_request` before the call and `response_for` after it, with
//! `Connection::on` keeping the order of a connection's events.

use vstd::prelude::*;
use vstd::string::*;
use crate::clock::Timestamp;
use crate::codec::CodecError;
use crate::ident::{format_uuid, parse_id, uuid_refusal, uuid_text, uuid_value};
use crate::storage::{
    authorized, has_id, key_views, law_registered_is_authorized, law_registered_is_listed,
    law_revoked_is_unauthorized, position_of, register_outcome, revoke_outcome, stored_record,
    well_formed, KeyPair, KeyPairView, StorageBackend, StoreError,
};

verus! {

/// A request of an administrative client.
#[derive(Debug, PartialEq, Eq)]
pub enum SocketMessage {
    /// Enroll the candidate. Its identifier and enrollment instant are
    /// assigned by the store.
    Register(KeyPair),
    /// Revoke the identity with this identifier, given as text.
    Revoke { id: String },
    /// List the live identities.
    List,
}

/// The server's answer to one request.
#[derive(Debug, PartialEq, Eq)]
pub enum SocketResponse {
    KeyRegistered(KeyPair),
    KeyRevoked,
    KeyList(Vec<KeyPair>),
    Error(String),
}

pub enum SocketMessageView {
    Register(KeyPairView),
    Revoke { id: Seq<char> },
    List,
}

pub enum SocketResponseView {
    KeyRegistered(KeyPairView),
    KeyRevoked,
    KeyList(Seq<KeyPairView>),
    Error(Seq<char>),
}

impl View for SocketMessage {
    type V = SocketMessageView;

    open spec fn view(&self) -> SocketMessageView {
        match self {
            SocketMessage::Register(keypair) => SocketMessageView::Register(keypair@),
            SocketMessage::Revoke { id } => SocketMessageView::Revoke { id: id@ },
            SocketMessage::List => SocketMessageView::List,
        }
    }
}

impl View for SocketResponse {
    type V = SocketResponseView;

    open spec fn view(&self) -> SocketResponseView {
        match self {
            SocketResponse::KeyRegistered(keypair) => SocketResponseView::KeyRegistered(keypair@),
            SocketResponse::KeyRevoked => SocketResponseView::KeyRevoked,
            SocketResponse::KeyList(list) => SocketResponseView::KeyList(key_views(list@)),
            SocketResponse::Error(text) => SocketResponseView::Error(text@),
        }
    }
}

/// The request that revokes the identity with an identifier: the
/// identifier goes as its hyphenated text, which the server reads back as
/// the same identifier.
pub fn revoke_request(id: u128) -> (message: SocketMessage)
    ensures
        message matches SocketMessage::Revoke { id: text } && text@ == uuid_text(id)
            && uuid_value(text@) == Some(id),
{
    SocketMessage::Revoke { id: format_uuid(id) }
}

/// A copy of a list of records.
pub fn clone_keys(list: &Vec<KeyPair>) -> (copy: Vec<KeyPair>)
    ensures
        copy@ == list@,
{
    let mut copy: Vec<KeyPair> = Vec::new();
    let mut i: usize = 0;
    while i < list.len()
        invariant
            i <= list.len(),
            copy@ == list@.subrange(0, i as int),
        decreases list.len() - i,
    {
        copy.push(list[i].clone());
        assert(copy@ =~= list@.subrange(0, i + 1));
        i += 1;
    }
    assert(list@.subrange(0, i as int) =~= list@);
    copy
}

impl Clone for SocketMessage {
    fn clone(&self) -> (copy: Self)
        ensures
            copy == *self,
    {
        match self {
            SocketMessage::Register(keypair) => SocketMessage::Register(keypair.clone()),
            SocketMessage::Revoke { id } => SocketMessage::Revoke { id: id.clone() },
            SocketMessage::List => SocketMessage::List,
        }
    }
}

impl Clone for SocketResponse {
    fn clone(&self) -> (copy: Self)
        ensures
            copy@ == self@,
    {
        match self {
            SocketResponse::KeyRegistered(keypair) => SocketResponse::KeyRegistered(
                keypair.clone(),
            ),
            SocketResponse::KeyRevoked => SocketResponse::KeyRevoked,
            SocketResponse::KeyList(list) => SocketResponse::KeyList(clone_keys(list)),
            SocketResponse::Error(text) => SocketResponse::Error(text.clone()),
        }
    }
}

/// A call on the store that a request asks for.
#[derive(Debug, PartialEq, Eq)]
pub enum StoreCall {
    Register(KeyPair),
    Revoke(u128),
    List,
}

/// Which call is under way.
#[derive(Clone, Copy, Debug, PartialEq, Eq, Structural)]
pub enum CallKind {
    Register,
    Revoke,
    List,
}

impl StoreCall {
    pub open spec fn spec_kind(&self) -> CallKind {
        match self {
            StoreCall::Register(_) => CallKind::Register,
            StoreCall::Revoke(_) => CallKind::Revoke,
            StoreCall::List => CallKind::List,
        }
    }

    pub fn kind(&self) -> (kind: CallKind)
        ensures
            kind == self.spec_kind(),
    {
        match self {
            StoreCall::Register(_) => CallKind::Register,
            StoreCall::Revoke(_) => CallKind::Revoke,
            StoreCall::List => CallKind::List,
        }
    }
}

/// What the store said to a call.
#[derive(Debug, PartialEq, Eq)]
pub enum StoreReply {
    Registered(KeyPair),
    Revoked,
    Listed(Vec<KeyPair>),
    /// The call failed, with the reason in words.
    Failed(String),
}

/// What a request leads to before the store is touched: a call on the
/// store, or an answer at once.
#[derive(Debug, PartialEq, Eq)]
pub enum Plan {
    Ask(StoreCall),
    Answer(SocketResponse),
}

/// The text sent when the store's reply is not one to the call made.
pub open spec fn mismatch_text() -> Seq<char> {
    "unexpected reply from the store"@
}

/// What a `Revoke` needs, once its identifier was read: a call on the
/// store with the identifier, or, for a text that is none, an `Error` at
/// once with the reason it was turned down.
pub fn plan_revoke(parsed: Result<u128, String>) -> (plan: Plan)
    ensures
        match parsed {
            Ok(value) => plan == Plan::Ask(StoreCall::Revoke(value)),
            Err(reason) => plan == Plan::Answer(SocketResponse::Error(reason)),
        },
{
    match parsed {
        Ok(value) => Plan::Ask(StoreCall::Revoke(value)),
        Err(reason) => Plan::Answer(SocketResponse::Error(reason)),
    }
}

/// Decides what a request needs. `Register` and `List` go to the store as
/// they are. `Revoke` goes to the store only with a well-formed identifier;
/// a text that is none is answered with an `Error` in the parser's words,
/// and the store is not called.
pub fn plan_request(message: SocketMessage) -> (plan: Plan)
    ensures
        match message {
            SocketMessage::Register(keypair) => plan == Plan::Ask(StoreCall::Register(keypair)),
            SocketMessage::Revoke { id } => match uuid_value(id@) {
                Some(value) => plan == Plan::Ask(StoreCall::Revoke(value)),
                None => plan matches Plan::Answer(SocketResponse::Error(reason)) && reason@
                    == uuid_refusal(id@),
            },
            SocketMessage::List => plan == Plan::Ask(StoreCall::List),
        },
{
    match message {
        SocketMessage::Register(keypair) => Plan::Ask(StoreCall::Register(keypair)),
        SocketMessage::Revoke { id } => plan_revoke(parse_id(id.as_str())),
        SocketMessage::List => Plan::Ask(StoreCall::List),
    }
}

/// `response` is the answer that a reply of the store to a call of this
/// kind calls for: the reply's content where it belongs to the call, the
/// store's words where the call failed, and an `Error` of the protocol's own
/// where the reply belongs to another call.
pub open spec fn answers_reply(kind: CallKind, reply: StoreReply, response: SocketResponse) -> bool {
    match reply {
        StoreReply::Failed(reason) => response == SocketResponse::Error(reason),
        StoreReply::Registered(stored) => if kind == CallKind::Register {
            response == SocketResponse::KeyRegistered(stored)
        } else {
            response matches SocketResponse::Error(text) && text@ == mismatch_text()
        },
        StoreReply::Revoked => if kind == CallKind::Revoke {
            response == SocketResponse::KeyRevoked
        } else {
            response matches SocketResponse::Error(text) && text@ == mismatch_text()
        },
        StoreReply::Listed(list) => if kind == CallKind::List {
            response == SocketResponse::KeyList(list)
        } else {
            response matches SocketResponse::Error(text) && text@ == mismatch_text()
        },
    }
}

/// Turns the store's reply to a call into the answer for the client. A
/// failure becomes an `Error` with the store's words; so does a reply that
/// does not belong to the call, with words of its own.
pub fn response_for(kind: CallKind, reply: StoreReply) -> (response: SocketResponse)
    ensures
        answers_reply(kind, reply, response),
{
    match reply {
        StoreReply::Failed(reason) => SocketResponse::Error(reason),
        StoreReply::Registered(stored) => match kind {
            CallKind::Register => SocketResponse::KeyRegistered(stored),
            _ => SocketResponse::Error(String::from_str("unexpected reply from the store")),
        },
        StoreReply::Revoked => match kind {
            CallKind::Revoke => SocketResponse::KeyRevoked,
            _ => SocketResponse::Error(String::from_str("unexpected reply from the store")),
        },
        StoreReply::Listed(list) => match kind {
            CallKind::List => SocketResponse::KeyList(list),
            _ => SocketResponse::Error(String::from_str("unexpected reply from the store")),
        },
    }
}

/// One exchange, as the protocol allows it: the request found the store
/// holding `before`, the server answered `response`, and the store then held
/// `after`.
///
/// A success says what was done: the record enrolled, under an identifier
/// that was free; the identity revoked; the listing of all that was there.
/// An `Error` leaves the store as it was. A listing never changes it.
pub open spec fn exchange(
    before: Seq<KeyPairView>,
    message: SocketMessageView,
    response: SocketResponseView,
    after: Seq<KeyPairView>,
) -> bool {
    match message {
        SocketMessageView::Register(candidate) => match response {
            SocketResponseView::KeyRegistered(stored) => {
                &&& stored == stored_record(candidate, stored.id, stored.created_at)
                &&& register_outcome(before, candidate, stored.id, stored.created_at) == Ok::<
                    Seq<KeyPairView>,
                    StoreError,
                >(after)
            },
            SocketResponseView::Error(_) => after == before,
            _ => false,
        },
        SocketMessageView::Revoke { id } => match response {
            SocketResponseView::KeyRevoked => {
                &&& uuid_value(id) matches Some(value)
                &&& revoke_outcome(before, value) == Ok::<Seq<KeyPairView>, StoreError>(after)
            },
            SocketResponseView::Error(_) => after == before,
            _ => false,
        },
        SocketMessageView::List => after == before && match response {
            SocketResponseView::KeyList(list) => list == before,
            SocketResponseView::Error(_) => true,
            _ => false,
        },
    }
}

/// The text is the message of a store failure.
pub open spec fn is_failure_text(text: Seq<char>) -> bool {
    exists|error: StoreError| text == #[trigger] error.spec_message()
}

/// The words of the answer are the due ones. A `Revoke` whose identifier
/// is none is answered with an `Error` in the words of the parser. Any
/// other `Error` is in the words of a store failure.
pub open spec fn in_due_words(message: SocketMessage, response: SocketResponse) -> bool {
    match message {
        SocketMessage::Revoke { id } => if uuid_value(id@) is None {
            response matches SocketResponse::Error(text) && text@ == uuid_refusal(id@)
        } else {
            response matches SocketResponse::Error(text) ==> is_failure_text(text@)
        },
        _ => response matches SocketResponse::Error(text) ==> is_failure_text(text@),
    }
}

/// One call on the store, as its contract allows it: the call found the
/// store holding `before`, the store said `reply`, and then held `after`. A
/// failure comes with the store's words and leaves the store as it was.
pub open spec fn performed(
    before: Seq<KeyPairView>,
    call: StoreCall,
    reply: StoreReply,
    after: Seq<KeyPairView>,
) -> bool {
    match reply {
        StoreReply::Failed(text) => after == before && is_failure_text(text@),
        StoreReply::Registered(stored) => {
            &&& call matches StoreCall::Register(candidate)
            &&& stored@ == stored_record(candidate@, stored.id, stored.created_at)
            &&& register_outcome(before, candidate@, stored.id, stored.created_at) == Ok::<
                Seq<KeyPairView>,
                StoreError,
            >(after)
        },
        StoreReply::Revoked => {
            &&& call matches StoreCall::Revoke(id)
            &&& revoke_outcome(before, id) == Ok::<Seq<KeyPairView>, StoreError>(after)
        },
        StoreReply::Listed(list) => {
            &&& call == StoreCall::List
            &&& after == before
            &&& key_views(list@) == before
        },
    }
}

/// The text of a store failure, as a store reply.
fn failure(error: StoreError) -> (reply: StoreReply)
    ensures
        reply matches StoreReply::Failed(text) && text@ == error.spec_message()
            && is_failure_text(text@),
{
    let text = error.message();
    assert(is_failure_text(text@));
    StoreReply::Failed(text)
}

/// Makes a call on a store that can be called in place, and reports what
/// the store said.
pub fn perform<S: StorageBackend>(store: &mut S, call: StoreCall) -> (reply: StoreReply)
    requires
        old(store).inv(),
    ensures
        final(store).inv(),
        final(store).hosts() == old(store).hosts(),
        performed(old(store).keys(), call, reply, final(store).keys()),
{
    match call {
        StoreCall::Register(keypair) => match store.register_key(keypair) {
            Ok(stored) => StoreReply::Registered(stored),
            Err(error) => failure(error),
        },
        StoreCall::Revoke(id) => match store.revoke_key(id) {
            Ok(()) => StoreReply::Revoked,
            Err(error) => failure(error),
        },
        StoreCall::List => match store.list_keys() {
            Ok(list) => StoreReply::Listed(list),
            Err(error) => failure(error),
        },
    }
}

/// Serves one request on a store that can be called in place: plans,
/// calls the store where the plan asks for it, and answers.
///
/// The answer is an `Error`, and the store is as it was, when the identifier
/// of a `Revoke` is no identifier, when it is on no record, when the public
/// key of a `Register` is on record already, and when the store fails. The
/// words of the `Error` are the store's, but for an identifier that is none.
pub fn handle_request<S: StorageBackend>(store: &mut S, message: SocketMessage) -> (response:
    SocketResponse)
    requires
        old(store).inv(),
    ensures
        final(store).inv(),
        final(store).hosts() == old(store).hosts(),
        exchange(old(store).keys(), message@, response@, final(store).keys()),
        in_due_words(message, response),
{
    match plan_request(message) {
        Plan::Answer(response) => response,
        Plan::Ask(call) => {
            let kind = call.kind();
            let reply = perform(store, call);
            response_for(kind, reply)
        },
    }
}

/// A listing repeated on an unchanged store gives the same listing: two
/// `List` exchanges in a row leave the store as it was, and where both are
/// answered with a listing, the two listings are equal, record for record.
pub proof fn law_list_is_idempotent(
    keys: Seq<KeyPairView>,
    first: SocketResponseView,
    between: Seq<KeyPairView>,
    second: SocketResponseView,
    after: Seq<KeyPairView>,
)
    requires
        exchange(keys, SocketMessageView::List, first, between),
        exchange(between, SocketMessageView::List, second, after),
    ensures
        between == keys,
        after == keys,
        first is KeyList && second is KeyList ==> first == second,
        first matches SocketResponseView::KeyList(list) ==> list == keys,
{
}

/// After a successful `Register`, a `List` shows the earlier records and
/// then exactly one record under the new identifier, with the candidate's
/// keys and deadline. The identifier was on no earlier record.
pub proof fn law_register_then_list(
    keys: Seq<KeyPairView>,
    candidate: KeyPairView,
    stored: KeyPairView,
    between: Seq<KeyPairView>,
    listing: Seq<KeyPairView>,
    after: Seq<KeyPairView>,
)
    requires
        well_formed(keys),
        exchange(
            keys,
            SocketMessageView::Register(candidate),
            SocketResponseView::KeyRegistered(stored),
            between,
        ),
        exchange(between, SocketMessageView::List, SocketResponseView::KeyList(listing), after),
    ensures
        well_formed(after),
        !has_id(keys, stored.id),
        stored.public_key == candidate.public_key,
        stored.private_key == candidate.private_key,
        stored.expires_at == candidate.expires_at,
        listing == keys.push(stored),
        forall|i: int|
            0 <= i < listing.len() && (#[trigger] listing[i]).id == stored.id ==> i == keys.len(),
{
    law_registered_is_listed(keys, candidate, stored.id, stored.created_at);
    assert forall|i: int| 0 <= i < listing.len() && (#[trigger] listing[i]).id
        == stored.id implies i == keys.len() by {
        if i < keys.len() {
            assert(listing[i] == keys[i]);
        }
    }
}

/// After a successful `Register`, the public key enrolled is authorized at
/// every instant that its deadline has not reached.
pub proof fn law_register_then_authorized(
    keys: Seq<KeyPairView>,
    candidate: KeyPairView,
    stored: KeyPairView,
    after: Seq<KeyPairView>,
    at: Timestamp,
)
    requires
        well_formed(keys),
        exchange(
            keys,
            SocketMessageView::Register(candidate),
            SocketResponseView::KeyRegistered(stored),
            after,
        ),
    ensures
        authorized(after, candidate.public_key, at) <==> !crate::clock::spec_expired(
            candidate.expires_at,
            at,
        ),
{
    law_registered_is_authorized(keys, candidate, stored.id, stored.created_at, at);
}

/// After a successful `Revoke`, the public key of the identity revoked is
/// authorized at no instant, and a second `Revoke` of the same identifier is
/// answered with an `Error` and changes nothing.
pub proof fn law_revoke_then_unauthorized(
    keys: Seq<KeyPairView>,
    id: Seq<char>,
    between: Seq<KeyPairView>,
    second: SocketResponseView,
    after: Seq<KeyPairView>,
    at: Timestamp,
)
    requires
        well_formed(keys),
        exchange(keys, SocketMessageView::Revoke { id }, SocketResponseView::KeyRevoked, between),
        exchange(between, SocketMessageView::Revoke { id }, second, after),
    ensures
        uuid_value(id) matches Some(value) && has_id(keys, value) && !has_id(between, value)
            && !authorized(between, keys[position_of(keys, value)].public_key, at),
        well_formed(between),
        second is Error,
        after == between,
{
    let value = uuid_value(id)->Some_0;
    law_revoked_is_unauthorized(keys, value, at);
}

/// Where an administrative connection stands.
#[derive(Clone, Copy, Debug, PartialEq, Eq, Structural)]
pub enum ConnState {
    /// Waiting for the client's next frame.
    Idle,
    /// A request is with the store; nothing is read until it is answered.
    Waiting(CallKind),
    /// Over.
    Closed,
}

/// What the caller saw happen on a connection.
#[derive(Debug, PartialEq, Eq)]
pub enum ConnEvent {
    /// A frame arrived and its payload is this request.
    Request(SocketMessage),
    /// A frame was turned down: too large, or no message.
    Rejected(CodecError),
    /// The store answered the call that was asked for.
    Replied(StoreReply),
    /// The client closed its side.
    Disconnected,
    /// Reading or writing failed.
    TransportFailed,
}

/// What the caller is to do next.
#[derive(Debug, PartialEq, Eq)]
pub enum ConnAction {
    /// Make this call on the store and report its reply.
    Ask(StoreCall),
    /// Send this answer, then read the next frame.
    Send(SocketResponse),
    /// Close the connection.
    Close,
}

/// One step of a connection: requests and answers alternate strictly.
///
/// While idle, a request is planned: it is either sent to the store, and
/// the connection waits, or answered at once. While waiting, the store's
/// reply becomes the answer and the connection is idle again. Every other
/// event closes the connection: a frame that was turned down, the end of the
/// stream, a transport failure, and anything out of turn. Closing asks
/// nothing of the store.
pub open spec fn conn_step(
    state: ConnState,
    event: ConnEvent,
    next: ConnState,
    action: ConnAction,
) -> bool {
    match state {
        ConnState::Idle => match event {
            ConnEvent::Request(SocketMessage::Register(keypair)) => {
                &&& next == ConnState::Waiting(CallKind::Register)
                &&& action == ConnAction::Ask(StoreCall::Register(keypair))
            },
            ConnEvent::Request(SocketMessage::Revoke { id }) => match uuid_value(id@) {
                Some(value) => {
                    &&& next == ConnState::Waiting(CallKind::Revoke)
                    &&& action == ConnAction::Ask(StoreCall::Revoke(value))
                },
                None => {
                    &&& next == ConnState::Idle
                    &&& action matches ConnAction::Send(SocketResponse::Error(reason))
                    &&& reason@ == uuid_refusal(id@)
                },
            },
            ConnEvent::Request(SocketMessage::List) => {
                &&& next == ConnState::Waiting(CallKind::List)
                &&& action == ConnAction::Ask(StoreCall::List)
            },
            _ => next == ConnState::Closed && action == ConnAction::Close,
        },
        ConnState::Waiting(kind) => match event {
            ConnEvent::Replied(reply) => {
                &&& next == ConnState::Idle
                &&& action matches ConnAction::Send(response)
                &&& answers_reply(kind, reply, response)
            },
            _ => next == ConnState::Closed && action == ConnAction::Close,
        },
        ConnState::Closed => next == ConnState::Closed && action == ConnAction::Close,
    }
}

/// One administrative connection.
#[derive(Debug)]
pub struct Connection {
    state: ConnState,
}

impl Connection {
    pub closed spec fn state(&self) -> ConnState {
        self.state
    }

    /// A connection just accepted.
    pub fn new() -> (connection: Self)
        ensures
            connection.state() == ConnState::Idle,
    {
        Connection { state: ConnState::Idle }
    }

    pub fn current(&self) -> (state: ConnState)
        ensures
            state == self.state(),
    {
        self.state
    }

    /// Takes an event in and says what to do.
    pub fn on(&mut self, event: ConnEvent) -> (action: ConnAction)
        ensures
            conn_step(old(self).state(), event, final(self).state(), action),
    {
        match self.state {
            ConnState::Idle => match event {
                ConnEvent::Request(message) => match plan_request(message) {
                    Plan::Ask(call) => {
                        self.state = ConnState::Waiting(call.kind());
                        ConnAction::Ask(call)
                    },
                    Plan::Answer(response) => ConnAction::Send(response),
                },
                _ => {
                    self.state = ConnState::Closed;
                    ConnAction::Close
                },
            },
            ConnState::Waiting(kind) => match event {
                ConnEvent::Replied(reply) => {
                    self.state = ConnState::Idle;
                    ConnAction::Send(response_for(kind, reply))
                },
                _ => {
                    self.state = ConnState::Closed;
                    ConnAction::Close
                },
            },
            ConnState::Closed => ConnAction::Close,
        }
    }
}

impl Connection {
    /// Takes an event in on a connection whose store can be called in place:
    /// as `on`, but a call that `on` would ask for is made here, and its
    /// reply taken in at once. So the action is never `Ask`.
    ///
    /// A request on an idle connection is answered as `handle_request`
    /// answers it, in the same words, and leaves the connection idle. Every other event leaves
    /// the store as it was: a frame that was turned down, the end of the
    /// stream and a failure of the transport close the connection and touch
    /// nothing.
    pub fn serve<S: StorageBackend>(&mut self, store: &mut S, event: ConnEvent) -> (action:
        ConnAction)
        requires
            old(store).inv(),
        ensures
            final(store).inv(),
            final(store).hosts() == old(store).hosts(),
            !(action is Ask),
            !(final(self).state() is Waiting),
            match event {
                ConnEvent::Request(message) => if old(self).state() == ConnState::Idle {
                    &&& final(self).state() == ConnState::Idle
                    &&& action matches ConnAction::Send(response)
                    &&& exchange(old(store).keys(), message@, response@, final(store).keys())
                    &&& in_due_words(message, response)
                } else {
                    &&& final(self).state() == ConnState::Closed
                    &&& action == ConnAction::Close
                    &&& final(store).keys() == old(store).keys()
                },
                ConnEvent::Replied(reply) => {
                    &&& final(store).keys() == old(store).keys()
                    &&& conn_step(old(self).state(), event, final(self).state(), action)
                },
                _ => {
                    &&& final(self).state() == ConnState::Closed
                    &&& action == ConnAction::Close
                    &&& final(store).keys() == old(store).keys()
                },
            },
    {
        match self.on(event) {
            ConnAction::Ask(call) => {
                let reply = perform(store, call);
                self.on(ConnEvent::Replied(reply))
            },
            action => action,
        }
    }
}

/// A frame that is turned down ends the connection, wherever it stands,
/// and the store is asked nothing: the only action is `Close`.
pub proof fn law_rejected_frame_closes(
    state: ConnState,
    error: CodecError,
    next: ConnState,
    action: ConnAction,
)
    requires
        conn_step(state, ConnEvent::Rejected(error), next, action),
    ensures
        next == ConnState::Closed,
        action == ConnAction::Close,
        !(action is Ask),
{
}

/// The store is asked only for a request that arrived while the connection
/// was idle, and an answer is sent only for such a request or for the
/// store's reply to one: no answer without a request, no request read while
/// one is unanswered.
pub proof fn law_requests_and_answers_alternate(
    state: ConnState,
    event: ConnEvent,
    next: ConnState,
    action: ConnAction,
)
    requires
        conn_step(state, event, next, action),
    ensures
        action is Ask ==> state == ConnState::Idle && event is Request && next is Waiting,
        action is Send ==> next == ConnState::Idle && ((state == ConnState::Idle && event
            is Request) || (state is Waiting && event is Replied)),
        state is Waiting && event is Request ==> action == ConnAction::Close,
        state == ConnState::Closed ==> next == ConnState::Closed && action == ConnAction::Close,
{
}

/// Why a call of the client came to nothing, the transport aside.
#[derive(Debug, PartialEq, Eq)]
pub enum ClientError {
    /// The server closed the connection without an answer.
    NoResponse,
    /// The server answered with an `Error`, in these words.
    Server(String),
    /// The server's answer belongs to another request.
    Unexpected,
}

impl ClientError {
    pub open spec fn spec_message(&self) -> Seq<char> {
        match self {
            ClientError::NoResponse => "No response received"@,
            ClientError::Server(reason) => "Server error: "@ + reason@,
            ClientError::Unexpected => "Unexpected response from server"@,
        }
    }

    /// The text shown to the operator.
    pub fn message(&self) -> (text: String)
        ensures
            text@ == self.spec_message(),
    {
        match self {
            ClientError::NoResponse => String::from_str("No response received"),
            ClientError::Server(reason) => String::from_str("Server error: ").concat(
                reason.as_str(),
            ),
            ClientError::Unexpected => String::from_str("Unexpected response from server"),
        }
    }
}

/// The client's end of the enrollment channel.
#[derive(Debug)]
pub struct SocketClient {
    socket_path: String,
}

impl SocketClient {
    pub closed spec fn spec_socket_path(&self) -> Seq<char> {
        self.socket_path@
    }

    pub fn new(socket_path: &str) -> (client: Self)
        ensures
            client.spec_socket_path() == socket_path@,
    {
        SocketClient { socket_path: String::from_str(socket_path) }
    }

    /// Where the server listens.
    pub fn socket_path(&self) -> (path: &str)
        ensures
            path@ == self.spec_socket_path(),
    {
        self.socket_path.as_str()
    }

    /// What a call amounts to once the stream has given what it had: the
    /// answer that arrived, whatever it says, or the lack of one. An `Error`
    /// of the server is an answer like any other here, so that the caller
    /// can tell it from a failure of the transport.
    pub fn received(&self, answer: Option<SocketResponse>) -> (outcome: Result<
        SocketResponse,
        ClientError,
    >)
        ensures
            match answer {
                Some(response) => outcome == Ok::<SocketResponse, ClientError>(response),
                None => outcome == Err::<SocketResponse, ClientError>(ClientError::NoResponse),
            },
    {
        match answer {
            Some(response) => Ok(response),
            None => Err(ClientError::NoResponse),
        }
    }
}

} // verus!
