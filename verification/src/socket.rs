//! The event-stream client: what each inbound frame means, how a session
//! moves through its phases, and how long to wait before reconnecting.

use crate::api::{is_text_object, param, text_object, Param};
use crate::directory::{shown_name_in, ResolvePlan, UserCache, UserDirectory};
use crate::json::{printed_json, Json};
use crate::text::{
    chars_of, find_from, first_match, lemma_first_match, opt_text, same_text, string_of_range,
};
use crate::types::{epoch_seconds, parse_epoch_seconds, Message, MessageView, UserView};
use vstd::prelude::*;

verus! {

/// The wait before the first reconnect after a failure, in milliseconds.
pub const INITIAL_BACKOFF_MS: u64 = 1000;

/// The longest wait before a reconnect, in milliseconds.
pub const MAX_RECONNECT_BACKOFF_MS: u64 = 30_000;

/// A read that brings no frame for this long is a keep-alive check, in
/// milliseconds.
pub const IDLE_TIMEOUT_MS: u64 = 60_000;

/// What the event stream tells the rest of the client.
#[derive(Debug)]
pub enum SlackEvent {
    Message { channel: String, message: Message },
    UserTyping { channel: String, user: String },
    ChannelJoined { channel: String },
    ChannelLeft { channel: String },
    Connected,
    Disconnected,
}

pub enum SlackEventView {
    Message { channel: Seq<char>, message: MessageView },
    UserTyping { channel: Seq<char>, user: Seq<char> },
    ChannelJoined { channel: Seq<char> },
    ChannelLeft { channel: Seq<char> },
    Connected,
    Disconnected,
}

impl View for SlackEvent {
    type V = SlackEventView;

    open spec fn view(&self) -> SlackEventView {
        match self {
            SlackEvent::Message { channel, message } => SlackEventView::Message {
                channel: channel@,
                message: message@,
            },
            SlackEvent::UserTyping { channel, user } => SlackEventView::UserTyping {
                channel: channel@,
                user: user@,
            },
            SlackEvent::ChannelJoined { channel } => SlackEventView::ChannelJoined {
                channel: channel@,
            },
            SlackEvent::ChannelLeft { channel } => SlackEventView::ChannelLeft {
                channel: channel@,
            },
            SlackEvent::Connected => SlackEventView::Connected,
            SlackEvent::Disconnected => SlackEventView::Disconnected,
        }
    }
}

/// The view of an optional event.
pub open spec fn opt_event(e: Option<SlackEvent>) -> Option<SlackEventView> {
    match e {
        Some(e) => Some(e@),
        None => None,
    }
}

/// The message that a live event document describes and the channel it
/// belongs to, with the author's name resolved through `directory`. The
/// document needs the strings `ts`, `user`, `text` and `channel`, and the
/// seconds of `ts` must be a time that the calendar holds.
pub open spec fn live_message_of(event: Json, directory: Map<Seq<char>, UserView>) -> Option<
    (Seq<char>, MessageView),
> {
    match (
        event.text_field("ts"@),
        event.text_field("user"@),
        event.text_field("text"@),
        event.text_field("channel"@),
    ) {
        (Some(ts), Some(user_id), Some(text), Some(channel)) => match epoch_seconds(ts) {
            Some(timestamp) => Some(
                (
                    channel,
                    MessageView {
                        ts,
                        user_id,
                        username: shown_name_in(directory, user_id),
                        text,
                        thread_ts: event.text_field("thread_ts"@),
                        timestamp,
                        is_agent: false,
                        reactions: Seq::empty(),
                        is_edited: false,
                        is_deleted: false,
                        files: Seq::empty(),
                        reply_count: None,
                        last_read: None,
                    },
                ),
            ),
            None => None,
        },
        _ => None,
    }
}

/// What an event document means to the client. A message counts only
/// without a subtype; typing needs a channel and a user; joining and
/// leaving need a channel. Every other document means nothing.
pub open spec fn event_of(event: Json, directory: Map<Seq<char>, UserView>) -> Option<
    SlackEventView,
> {
    let kind = event.text_field("type"@);
    if kind == Some("message"@) {
        if event.field("subtype"@) is None {
            match live_message_of(event, directory) {
                Some((channel, message)) => Some(SlackEventView::Message { channel, message }),
                None => None,
            }
        } else {
            None
        }
    } else if kind == Some("user_typing"@) {
        match (event.text_field("channel"@), event.text_field("user"@)) {
            (Some(channel), Some(user)) => Some(SlackEventView::UserTyping { channel, user }),
            _ => None,
        }
    } else if kind == Some("member_joined_channel"@) {
        match event.text_field("channel"@) {
            Some(channel) => Some(SlackEventView::ChannelJoined { channel }),
            None => None,
        }
    } else if kind == Some("member_left_channel"@) {
        match event.text_field("channel"@) {
            Some(channel) => Some(SlackEventView::ChannelLeft { channel }),
            None => None,
        }
    } else {
        None
    }
}

/// The frame is the greeting that opens a session.
pub open spec fn is_hello(frame: Json) -> bool {
    frame.text_field("type"@) == Some("hello"@)
}

/// The frame asks the client to disconnect.
pub open spec fn is_disconnect(frame: Json) -> bool {
    !is_hello(frame) && frame.text_field("type"@) == Some("disconnect"@)
}

/// The event document that a frame carries: the member `event` of its
/// member `payload`. Greetings and disconnect requests carry none.
pub open spec fn carried_event(frame: Json) -> Option<Json> {
    if is_hello(frame) || is_disconnect(frame) {
        None
    } else {
        match frame.field("payload"@) {
            Some(payload) => payload.field("event"@),
            None => None,
        }
    }
}

/// What a frame means to the client.
pub open spec fn frame_event(frame: Json, directory: Map<Seq<char>, UserView>) -> Option<
    SlackEventView,
> {
    match carried_event(frame) {
        Some(event) => event_of(event, directory),
        None => None,
    }
}

/// What the client does with one inbound frame.
#[derive(Debug)]
pub struct FrameOutcome {
    /// The envelope id to acknowledge, before anything else is done.
    pub ack: Option<String>,
    /// What the frame means to the client, if anything.
    pub event: Option<SlackEvent>,
    /// The frame ends the session.
    pub disconnect: bool,
}

/// The author whose name a frame needs, if it carries a message without a
/// subtype.
pub open spec fn frame_author(frame: Json) -> Option<Seq<char>> {
    match carried_event(frame) {
        Some(event) => if event.text_field("type"@) == Some("message"@) && event.field(
            "subtype"@,
        ) is None {
            event.text_field("user"@)
        } else {
            None
        },
        None => None,
    }
}

/// Whether the string member `key` of `doc` is `value`.
fn text_field_is(doc: &Json, key: &str, value: &str) -> (r: bool)
    ensures
        r == (doc.text_field(key@) == Some(value@)),
{
    match doc.get(key) {
        Some(member) => match member.as_str() {
            Some(s) => same_text(s, value),
            None => false,
        },
        None => false,
    }
}

/// The event document that a frame carries.
fn get_carried_event(frame: &Json) -> (r: Option<&Json>)
    ensures
        match r {
            Some(event) => carried_event(*frame) == Some(*event),
            None => carried_event(*frame) is None,
        },
{
    if text_field_is(frame, "type", "hello") || text_field_is(frame, "type", "disconnect") {
        return None;
    }
    match frame.get("payload") {
        Some(payload) => payload.get("event"),
        None => None,
    }
}

/// Reads a live message and its channel from an event document, and
/// resolves the author's name through `users`.
pub fn parse_message(event: &Json, users: &UserDirectory) -> (r: Option<(String, Message)>)
    ensures
        match r {
            Some((channel, message)) => live_message_of(*event, users@) == Some(
                (channel@, message@),
            ),
            None => live_message_of(*event, users@) is None,
        },
{
    let ts = match event.get_string("ts") {
        Some(ts) => ts,
        None => {
            return None;
        },
    };
    let user_id = match event.get_string("user") {
        Some(user_id) => user_id,
        None => {
            return None;
        },
    };
    let text = match event.get_string("text") {
        Some(text) => text,
        None => {
            return None;
        },
    };
    let channel = match event.get_string("channel") {
        Some(channel) => channel,
        None => {
            return None;
        },
    };
    let timestamp = match parse_epoch_seconds(ts.as_str()) {
        Some(timestamp) => timestamp,
        None => {
            return None;
        },
    };
    let username = users.resolve_username(user_id.as_str());
    let message = Message {
        ts,
        user_id,
        username,
        text,
        thread_ts: event.get_string("thread_ts"),
        timestamp,
        is_agent: false,
        reactions: Vec::new(),
        is_edited: false,
        is_deleted: false,
        files: Vec::new(),
        reply_count: None,
        last_read: None,
    };
    assert(message@.reactions =~= Seq::empty());
    assert(message@.files =~= Seq::empty());
    Some((channel, message))
}

/// Translates an event document into what it means to the client.
pub fn parse_event(event: &Json, users: &UserDirectory) -> (r: Option<SlackEvent>)
    ensures
        opt_event(r) == event_of(*event, users@),
{
    if text_field_is(event, "type", "message") {
        if event.get("subtype").is_none() {
            match parse_message(event, users) {
                Some((channel, message)) => Some(SlackEvent::Message { channel, message }),
                None => None,
            }
        } else {
            None
        }
    } else if text_field_is(event, "type", "user_typing") {
        match (event.get_string("channel"), event.get_string("user")) {
            (Some(channel), Some(user)) => Some(SlackEvent::UserTyping { channel, user }),
            _ => None,
        }
    } else if text_field_is(event, "type", "member_joined_channel") {
        match event.get_string("channel") {
            Some(channel) => Some(SlackEvent::ChannelJoined { channel }),
            None => None,
        }
    } else if text_field_is(event, "type", "member_left_channel") {
        match event.get_string("channel") {
            Some(channel) => Some(SlackEvent::ChannelLeft { channel }),
            None => None,
        }
    } else {
        None
    }
}

/// Reads one inbound frame: the envelope to acknowledge, what the frame
/// means, and whether it ends the session. A frame that is no JSON
/// document is passed over.
pub fn handle_frame(frame: Option<&Json>, users: &UserDirectory) -> (r: FrameOutcome)
    ensures
        match frame {
            Some(doc) => opt_text(r.ack) == doc.text_field("envelope_id"@) && opt_event(r.event)
                == frame_event(*doc, users@) && r.disconnect == is_disconnect(*doc),
            None => r.ack is None && r.event is None && !r.disconnect,
        },
{
    match frame {
        None => FrameOutcome { ack: None, event: None, disconnect: false },
        Some(doc) => {
            let ack = doc.get_string("envelope_id");
            let disconnect = !text_field_is(doc, "type", "hello") && text_field_is(
                doc,
                "type",
                "disconnect",
            );
            let event = match get_carried_event(doc) {
                Some(event) => parse_event(event, users),
                None => None,
            };
            FrameOutcome { ack, event, disconnect }
        },
    }
}

/// Reads the text of one inbound frame.
pub fn handle_message(text: &str, users: &UserDirectory) -> (r: FrameOutcome)
    ensures
        match crate::json::parsed_json(text@) {
            Some(doc) => opt_text(r.ack) == doc.text_field("envelope_id"@) && opt_event(r.event)
                == frame_event(doc, users@) && r.disconnect == is_disconnect(doc),
            None => r.ack is None && r.event is None && !r.disconnect,
        },
{
    let parsed = Json::parse(text);
    match parsed {
        Some(doc) => handle_frame(Some(&doc), users),
        None => handle_frame(None, users),
    }
}

/// The author whose name the frame needs and the cache cannot give at
/// `now` without a refresh: the caller refreshes the cache before it hands
/// the frame to `handle_frame`.
pub fn needs_refresh(frame: &Json, cache: &UserCache, now: u64) -> (r: bool)
    ensures
        r == match frame_author(*frame) {
            Some(author) => !cache.directory@.contains_key(author) && !cache.is_fresh(now),
            None => false,
        },
{
    match get_carried_event(frame) {
        Some(event) => {
            if text_field_is(event, "type", "message") && event.get("subtype").is_none() {
                match event.get_string("user") {
                    Some(author) => match cache.resolve_plan(author.as_str(), now) {
                        ResolvePlan::Refresh => true,
                        _ => false,
                    },
                    None => false,
                }
            } else {
                false
            }
        },
        None => false,
    }
}

/// `text` is the frame that acknowledges the envelope `envelope_id`: the
/// JSON object whose only member `envelope_id` echoes the id.
pub open spec fn is_ack_text(text: Seq<char>, envelope_id: Seq<char>) -> bool {
    exists|doc: Json|
        is_text_object(doc, seq![("envelope_id"@, envelope_id)]) && text == printed_json(doc)
}

/// The frame that acknowledges the envelope `envelope_id`.
pub fn ack_frame(envelope_id: &str) -> (r: String)
    ensures
        is_ack_text(r@, envelope_id@),
{
    let mut members: Vec<Param> = Vec::new();
    let member = param("envelope_id", envelope_id);
    members.push(member);
    assert(crate::api::param_views(members@) =~= seq![("envelope_id"@, envelope_id@)]);
    let doc = text_object(&members);
    doc.to_text()
}

/// One thing to do for an inbound frame.
#[derive(Debug)]
pub enum FrameAction {
    /// Send this frame back.
    Acknowledge(String),
    /// Hand this event to the client.
    Deliver(SlackEvent),
}

impl FrameOutcome {
    /// What is to be done for the frame, in order: the acknowledgment of
    /// its envelope comes first, and only then what the frame means is
    /// handed on.
    pub fn actions(self) -> (r: Vec<FrameAction>)
        ensures
            r@.len() == (if self.ack is Some {
                1int
            } else {
                0int
            }) + (if self.event is Some {
                1int
            } else {
                0int
            }),
            self.ack is Some ==> r@[0] is Acknowledge && is_ack_text(
                r@[0]->Acknowledge_0@,
                self.ack->0@,
            ),
            self.event is Some ==> r@[r@.len() - 1] == FrameAction::Deliver(self.event->0),
    {
        let mut r: Vec<FrameAction> = Vec::new();
        match self.ack {
            Some(envelope_id) => {
                r.push(FrameAction::Acknowledge(ack_frame(envelope_id.as_str())));
            },
            None => {},
        }
        match self.event {
            Some(event) => {
                r.push(FrameAction::Deliver(event));
            },
            None => {},
        }
        r
    }
}

/// The part of an address before its first `?`; all of it where it has
/// none.
pub open spec fn without_query(url: Seq<char>) -> Seq<char> {
    match first_match(url, seq!['?'], 0) {
        Some(i) => url.take(i),
        None => url,
    }
}

/// The address of a connection without its query, which carries the
/// credentials: what may be written to a log.
pub fn redact_socket_url(url: &str) -> (r: String)
    ensures
        r@ == without_query(url@),
{
    let chars = chars_of(url);
    let mark: Vec<char> = vec!['?'];
    assert(mark@ =~= seq!['?']);
    match find_from(&chars, &mark, 0) {
        Some(i) => {
            proof {
                lemma_first_match(chars@, mark@, 0);
            }
            assert(chars@.take(i as int) =~= chars@.subrange(0, i as int));
            string_of_range(&chars, 0, i)
        },
        None => url.to_owned(),
    }
}

/// The redacted address holds no `?`, so nothing of the query is left.
pub proof fn lemma_redacted_has_no_query(url: Seq<char>)
    ensures
        forall|i: int| 0 <= i < without_query(url).len() ==> without_query(url)[i] != '?',
{
    lemma_first_match(url, seq!['?'], 0);
    let cut = without_query(url);
    assert forall|i: int| 0 <= i < cut.len() implies cut[i] != '?' by {
        if cut[i] == '?' {
            assert(url[i] == '?');
            assert(url.subrange(i, i + 1) =~= seq!['?']);
            assert(crate::text::matches_at(url, seq!['?'], i));
        }
    }
}

/// The phase of one session of the event stream.
#[derive(Clone, Copy, Debug, PartialEq, Eq)]
pub enum SessionPhase {
    /// No connection.
    Disconnected,
    /// A fresh address is being minted and the connection opened.
    Connecting,
    /// The connection is open and no frame has arrived yet.
    Handshaking,
    /// Frames are being exchanged.
    Live,
}

/// What happens to a session.
#[derive(Clone, Copy, Debug, PartialEq, Eq)]
pub enum SessionInput {
    /// The run loop starts a connection attempt.
    Start,
    /// The connection was opened.
    Opened,
    /// A text frame arrived; `disconnect` says whether it asks the client
    /// to disconnect.
    Frame { disconnect: bool },
    /// Something else than a text frame arrived.
    Other,
    /// No frame arrived within the idle timeout.
    Idle,
    /// The remote side closed the connection, or the stream ended.
    Closed,
    /// The address could not be minted, the connection could not be
    /// opened, or the transport failed.
    Failed,
}

/// How a session ended.
#[derive(Clone, Copy, Debug, PartialEq, Eq)]
pub enum SessionEnd {
    /// The remote side closed the connection or asked to disconnect.
    Graceful,
    /// The session failed.
    Failed,
}

/// What the driver of a session does next.
#[derive(Clone, Copy, Debug, PartialEq, Eq)]
pub enum SessionAction {
    /// Mint a fresh address and open the connection.
    Connect,
    /// Tell the client that the stream is connected, then read.
    AnnounceAndRead,
    /// Read the next frame, for at most the idle timeout.
    Read,
    /// Acknowledge and process the frame, then read.
    ProcessAndRead,
    /// Tell the client that the stream is disconnected, and end the
    /// session.
    End(SessionEnd),
    /// Nothing: the input does not belong to this phase.
    Nothing,
}

/// The phase after `input` in `phase`, and what the driver does next.
pub open spec fn session_step(phase: SessionPhase, input: SessionInput) -> (
    SessionPhase,
    SessionAction,
) {
    match (phase, input) {
        (SessionPhase::Disconnected, SessionInput::Start) => (
            SessionPhase::Connecting,
            SessionAction::Connect,
        ),
        (SessionPhase::Disconnected, _) => (SessionPhase::Disconnected, SessionAction::Nothing),
        (SessionPhase::Connecting, SessionInput::Opened) => (
            SessionPhase::Handshaking,
            SessionAction::AnnounceAndRead,
        ),
        (SessionPhase::Connecting, SessionInput::Failed) => (
            SessionPhase::Disconnected,
            SessionAction::End(SessionEnd::Failed),
        ),
        (SessionPhase::Connecting, _) => (SessionPhase::Connecting, SessionAction::Nothing),
        (_, SessionInput::Frame { disconnect }) => if disconnect {
            (SessionPhase::Disconnected, SessionAction::End(SessionEnd::Graceful))
        } else {
            (SessionPhase::Live, SessionAction::ProcessAndRead)
        },
        (_, SessionInput::Other) => (phase, SessionAction::Read),
        (_, SessionInput::Idle) => (phase, SessionAction::Read),
        (_, SessionInput::Closed) => (
            SessionPhase::Disconnected,
            SessionAction::End(SessionEnd::Graceful),
        ),
        (_, SessionInput::Failed) => (
            SessionPhase::Disconnected,
            SessionAction::End(SessionEnd::Failed),
        ),
        (_, SessionInput::Start) => (phase, SessionAction::Nothing),
        (_, SessionInput::Opened) => (phase, SessionAction::Nothing),
    }
}

/// The wait that follows `wait` after one more failure: twice as long, up
/// to the ceiling.
pub open spec fn doubled(wait: u64) -> u64 {
    if wait >= MAX_RECONNECT_BACKOFF_MS / 2 {
        MAX_RECONNECT_BACKOFF_MS
    } else {
        (wait * 2) as u64
    }
}

/// The wait before the reconnect after `failures` failed sessions in a
/// row.
pub open spec fn backoff_after(failures: nat) -> u64
    decreases failures,
{
    if failures == 0 {
        INITIAL_BACKOFF_MS
    } else {
        doubled(backoff_after((failures - 1) as nat))
    }
}

/// The client of the event stream: its credentials, the phase of its
/// session, and the wait before the next reconnect.
#[derive(Debug)]
pub struct SocketModeClient {
    pub xapp_token: String,
    pub xoxp_token: String,
    pub phase: SessionPhase,
    pub backoff_ms: u64,
}

impl SocketModeClient {
    /// The wait lies between the initial wait and the ceiling.
    pub open spec fn well_formed(self) -> bool {
        INITIAL_BACKOFF_MS <= self.backoff_ms <= MAX_RECONNECT_BACKOFF_MS
    }

    /// A disconnected client with the initial wait.
    pub fn new(xapp_token: String, xoxp_token: String) -> (r: SocketModeClient)
        ensures
            r.xapp_token == xapp_token,
            r.xoxp_token == xoxp_token,
            r.phase == SessionPhase::Disconnected,
            r.backoff_ms == INITIAL_BACKOFF_MS,
            r.well_formed(),
    {
        SocketModeClient {
            xapp_token,
            xoxp_token,
            phase: SessionPhase::Disconnected,
            backoff_ms: INITIAL_BACKOFF_MS,
        }
    }

    /// Takes what happened to the session, moves to the next phase, and
    /// says what the driver does next.
    pub fn connect_and_listen(&mut self, input: SessionInput) -> (action: SessionAction)
        ensures
            (final(self).phase, action) == session_step(old(self).phase, input),
            final(self).backoff_ms == old(self).backoff_ms,
            final(self).xapp_token == old(self).xapp_token,
            final(self).xoxp_token == old(self).xoxp_token,
    {
        let (phase, action) = match (self.phase, input) {
            (SessionPhase::Disconnected, SessionInput::Start) => (
                SessionPhase::Connecting,
                SessionAction::Connect,
            ),
            (SessionPhase::Disconnected, _) => (SessionPhase::Disconnected, SessionAction::Nothing),
            (SessionPhase::Connecting, SessionInput::Opened) => (
                SessionPhase::Handshaking,
                SessionAction::AnnounceAndRead,
            ),
            (SessionPhase::Connecting, SessionInput::Failed) => (
                SessionPhase::Disconnected,
                SessionAction::End(SessionEnd::Failed),
            ),
            (SessionPhase::Connecting, _) => (SessionPhase::Connecting, SessionAction::Nothing),
            (_, SessionInput::Frame { disconnect }) => if disconnect {
                (SessionPhase::Disconnected, SessionAction::End(SessionEnd::Graceful))
            } else {
                (SessionPhase::Live, SessionAction::ProcessAndRead)
            },
            (_, SessionInput::Other) => (self.phase, SessionAction::Read),
            (_, SessionInput::Idle) => (self.phase, SessionAction::Read),
            (_, SessionInput::Closed) => (
                SessionPhase::Disconnected,
                SessionAction::End(SessionEnd::Graceful),
            ),
            (_, SessionInput::Failed) => (
                SessionPhase::Disconnected,
                SessionAction::End(SessionEnd::Failed),
            ),
            (_, SessionInput::Start) => (self.phase, SessionAction::Nothing),
            (_, SessionInput::Opened) => (self.phase, SessionAction::Nothing),
        };
        self.phase = phase;
        action
    }

    /// One turn of the reconnect loop: takes how the last session ended
    /// and gives the wait before the next connection attempt, in
    /// milliseconds. After a graceful end the next attempt follows at once
    /// and the wait starts over; after a failure the client waits, and the
    /// wait after that is twice as long, up to the ceiling. The loop has no
    /// end of its own.
    pub fn run(&mut self, ended: SessionEnd) -> (wait_ms: u64)
        ensures
            old(self).well_formed() ==> final(self).well_formed(),
            final(self).phase == old(self).phase,
            final(self).xapp_token == old(self).xapp_token,
            final(self).xoxp_token == old(self).xoxp_token,
            match ended {
                SessionEnd::Graceful => wait_ms == 0 && final(self).backoff_ms
                    == INITIAL_BACKOFF_MS,
                SessionEnd::Failed => wait_ms == old(self).backoff_ms && final(self).backoff_ms
                    == doubled(old(self).backoff_ms),
            },
    {
        match ended {
            SessionEnd::Graceful => {
                self.backoff_ms = INITIAL_BACKOFF_MS;
                0
            },
            SessionEnd::Failed => {
                let wait = self.backoff_ms;
                self.backoff_ms = if wait >= MAX_RECONNECT_BACKOFF_MS / 2 {
                    MAX_RECONNECT_BACKOFF_MS
                } else {
                    wait * 2
                };
                wait
            },
        }
    }
}

/// The wait never leaves the range from the initial wait to the ceiling,
/// never shrinks while sessions keep failing, and is the ceiling from the
/// fifth failure in a row on.
pub proof fn lemma_backoff_after(failures: nat)
    ensures
        INITIAL_BACKOFF_MS <= backoff_after(failures) <= MAX_RECONNECT_BACKOFF_MS,
        backoff_after(failures) <= backoff_after(failures + 1),
        failures >= 5 ==> backoff_after(failures) == MAX_RECONNECT_BACKOFF_MS,
        failures == 1 ==> backoff_after(failures) == 2000,
        failures == 2 ==> backoff_after(failures) == 4000,
        failures == 3 ==> backoff_after(failures) == 8000,
        failures == 4 ==> backoff_after(failures) == 16000,
    decreases failures,
{
    reveal_with_fuel(backoff_after, 2);
    if failures > 0 {
        lemma_backoff_after((failures - 1) as nat);
    }
}

/// A session ends only on a disconnect request, a close or a failure: an
/// idle read or a frame of another kind never ends it.
pub proof fn lemma_idle_keeps_session(phase: SessionPhase)
    requires
        phase == SessionPhase::Handshaking || phase == SessionPhase::Live,
    ensures
        session_step(phase, SessionInput::Idle) == (phase, SessionAction::Read),
        session_step(phase, SessionInput::Other) == (phase, SessionAction::Read),
        session_step(phase, SessionInput::Frame { disconnect: false }).0 == SessionPhase::Live,
        session_step(phase, SessionInput::Frame { disconnect: true }) == (
            SessionPhase::Disconnected,
            SessionAction::End(SessionEnd::Graceful),
        ),
{
}

} // verus!
