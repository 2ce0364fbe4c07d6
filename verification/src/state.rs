//! What the client holds while it runs, and how the results of background
//! work change it.
//!
//! Background work never touches this state. It hands over events; the
//! presentation loop drains them once per tick and applies them here.

use crate::auth::{after_joining, workspace_views, Session};
use crate::config::Config;
use crate::error::{classified, map_anyhow_error};
use crate::input::InputState;
use crate::keyed::{key_index, lemma_key_index, StrMap};
use crate::layout::{DragTarget, LayoutState};
use crate::menu::{ContextMenu, EditState, MessageFilter};
use crate::onboarding::OnboardingState;
use crate::redact::{redact_sensitive, redacted};
use crate::retry::CallError;
use crate::runner::{AgentRunner, AgentStatus};
use crate::socket::{SlackEvent, SlackEventView};
use crate::text::{join2, join3, opt_text, texts};
use crate::types::{
    message_views, Channel, Message, MessageView, Thread, Workspace, WorkspaceState, WorkspaceView,
};
use std::collections::VecDeque;
use vstd::prelude::*;

verus! {

pub struct ThreadView {
    pub parent_ts: Seq<char>,
    pub channel_id: Seq<char>,
    pub replies: Seq<MessageView>,
    pub is_collapsed: bool,
}

impl View for Thread {
    type V = ThreadView;

    open spec fn view(&self) -> ThreadView {
        ThreadView {
            parent_ts: self.parent_ts@,
            channel_id: self.channel_id@,
            replies: message_views(self.replies@),
            is_collapsed: self.is_collapsed,
        }
    }
}

/// The views of a sequence of threads.
pub open spec fn thread_views(v: Seq<Thread>) -> Seq<ThreadView> {
    v.map_values(|t: Thread| t@)
}

/// The conversations of the client as plain values: per channel the
/// messages in the order of their arrival, the threads that were loaded,
/// the thread that the channel last saw a reply in, and the users who are
/// typing.
pub struct ChatView {
    pub messages: Map<Seq<char>, Seq<MessageView>>,
    pub threads: Map<Seq<char>, Seq<ThreadView>>,
    pub active_threads: Map<Seq<char>, Seq<char>>,
    pub typing_users: Map<Seq<char>, Seq<Seq<char>>>,
}

impl ChatView {
    /// The messages of `channel`, and none where nothing is known of it.
    pub open spec fn messages_in(self, channel: Seq<char>) -> Seq<MessageView> {
        if self.messages.contains_key(channel) {
            self.messages[channel]
        } else {
            Seq::empty()
        }
    }

    /// The users typing in `channel`.
    pub open spec fn typing_in(self, channel: Seq<char>) -> Seq<Seq<char>> {
        if self.typing_users.contains_key(channel) {
            self.typing_users[channel]
        } else {
            Seq::empty()
        }
    }

    /// The threads of `channel`.
    pub open spec fn threads_in(self, channel: Seq<char>) -> Seq<ThreadView> {
        if self.threads.contains_key(channel) {
            self.threads[channel]
        } else {
            Seq::empty()
        }
    }

    /// The conversations after `message` arrived in `channel`: it is the
    /// last message of its channel, and where it is a reply its thread is
    /// the active thread of its channel. No other channel changes.
    pub open spec fn with_message(self, channel: Seq<char>, message: MessageView) -> ChatView {
        ChatView {
            messages: self.messages.insert(channel, self.messages_in(channel).push(message)),
            threads: if message.thread_ts is Some {
                self.threads.insert(channel, self.threads_in(channel))
            } else {
                self.threads
            },
            active_threads: match message.thread_ts {
                Some(ts) => self.active_threads.insert(channel, ts),
                None => self.active_threads,
            },
            typing_users: self.typing_users,
        }
    }

    /// The conversations after `user` was seen typing in `channel`: the
    /// user is listed once among those typing there.
    pub open spec fn with_typing(self, channel: Seq<char>, user: Seq<char>) -> ChatView {
        ChatView {
            typing_users: self.typing_users.insert(
                channel,
                if self.typing_in(channel).contains(user) {
                    self.typing_in(channel)
                } else {
                    self.typing_in(channel).push(user)
                },
            ),
            ..self
        }
    }

    /// The conversations after the history of `channel` was loaded: it
    /// takes the place of what was known of the channel.
    pub open spec fn with_history(self, channel: Seq<char>, messages: Seq<MessageView>)
        -> ChatView {
        ChatView { messages: self.messages.insert(channel, messages), ..self }
    }

    /// The conversations after one event of the stream.
    pub open spec fn after(self, event: SlackEventView) -> ChatView {
        match event {
            SlackEventView::Message { channel, message } => self.with_message(channel, message),
            SlackEventView::UserTyping { channel, user } => self.with_typing(channel, user),
            _ => self,
        }
    }

    /// The conversations after the events `events`, in order.
    pub open spec fn after_all(self, events: Seq<SlackEventView>) -> ChatView
        decreases events.len(),
    {
        if events.len() == 0 {
            self
        } else {
            self.after_all(events.drop_last()).after(events.last())
        }
    }
}

/// Two messages that arrive in different channels each land in their own
/// channel, after what was there, even where they carry the same
/// timestamp id; and each channel's active thread is that of its own
/// message.
pub proof fn lemma_messages_stay_in_their_channel(
    chat: ChatView,
    first_channel: Seq<char>,
    first: MessageView,
    second_channel: Seq<char>,
    second: MessageView,
)
    requires
        first_channel != second_channel,
    ensures
        ({
            let after = chat.with_message(first_channel, first).with_message(
                second_channel,
                second,
            );
            &&& after.messages_in(first_channel) == chat.messages_in(first_channel).push(first)
            &&& after.messages_in(second_channel) == chat.messages_in(second_channel).push(second)
            &&& first.thread_ts matches Some(ts) ==> after.active_threads.contains_key(
                first_channel,
            ) && after.active_threads[first_channel] == ts
            &&& second.thread_ts matches Some(ts) ==> after.active_threads.contains_key(
                second_channel,
            ) && after.active_threads[second_channel] == ts
            &&& first.thread_ts is None ==> (after.active_threads.contains_key(first_channel)
                <==> chat.active_threads.contains_key(first_channel))
            &&& forall|other: Seq<char>|
                other != first_channel && other != second_channel ==> after.messages_in(other)
                    == chat.messages_in(other) && (after.active_threads.contains_key(other)
                    <==> chat.active_threads.contains_key(other))
        }),
{
}

/// A message changes nothing in any channel but its own.
pub proof fn lemma_message_is_local(
    chat: ChatView,
    channel: Seq<char>,
    message: MessageView,
    other: Seq<char>,
)
    requires
        other != channel,
    ensures
        chat.with_message(channel, message).messages_in(other) == chat.messages_in(other),
        chat.with_message(channel, message).threads_in(other) == chat.threads_in(other),
        chat.with_message(channel, message).typing_in(other) == chat.typing_in(other),
        chat.with_message(channel, message).active_threads.contains_key(other)
            == chat.active_threads.contains_key(other),
        chat.active_threads.contains_key(other) ==> chat.with_message(
            channel,
            message,
        ).active_threads[other] == chat.active_threads[other],
{
}

/// The messages of each channel as plain values.
pub open spec fn message_map(m: StrMap<VecDeque<Message>>) -> Map<Seq<char>, Seq<MessageView>> {
    Map::new(|k: Seq<char>| m.lookup(k) is Some, |k: Seq<char>| message_views(m.lookup(k)->0@))
}

/// The threads of each channel as plain values.
pub open spec fn thread_map(m: StrMap<Vec<Thread>>) -> Map<Seq<char>, Seq<ThreadView>> {
    Map::new(|k: Seq<char>| m.lookup(k) is Some, |k: Seq<char>| thread_views(m.lookup(k)->0@))
}

/// The texts under each key as plain values.
pub open spec fn text_map(m: StrMap<String>) -> Map<Seq<char>, Seq<char>> {
    Map::new(|k: Seq<char>| m.lookup(k) is Some, |k: Seq<char>| m.lookup(k)->0@)
}

/// The lists of texts under each key as plain values.
pub open spec fn texts_map(m: StrMap<Vec<String>>) -> Map<Seq<char>, Seq<Seq<char>>> {
    Map::new(|k: Seq<char>| m.lookup(k) is Some, |k: Seq<char>| texts(m.lookup(k)->0@))
}

/// The conversations of the client.
#[derive(Debug)]
pub struct ChatState {
    pub messages: StrMap<VecDeque<Message>>,
    pub threads: StrMap<Vec<Thread>>,
    pub active_threads: StrMap<String>,
    pub typing_users: StrMap<Vec<String>>,
}

impl View for ChatState {
    type V = ChatView;

    open spec fn view(&self) -> ChatView {
        ChatView {
            messages: message_map(self.messages),
            threads: thread_map(self.threads),
            active_threads: text_map(self.active_threads),
            typing_users: texts_map(self.typing_users),
        }
    }
}

/// Whether `user` is among `users`.
fn lists_user(users: &Vec<String>, user: &String) -> (r: bool)
    ensures
        r == texts(users@).contains(user@),
{
    let mut i: usize = 0;
    while i < users.len()
        invariant
            i <= users.len(),
            forall|j: int| 0 <= j < i ==> texts(users@)[j] != user@,
        decreases users.len() - i,
    {
        if users[i] == *user {
            assert(texts(users@)[i as int] == user@);
            return true;
        }
        i += 1;
    }
    false
}

impl ChatState {
    /// The conversations before anything arrived.
    pub fn new() -> (r: ChatState)
        ensures
            r@.messages == Map::<Seq<char>, Seq<MessageView>>::empty(),
            r@.threads == Map::<Seq<char>, Seq<ThreadView>>::empty(),
            r@.active_threads == Map::<Seq<char>, Seq<char>>::empty(),
            r@.typing_users == Map::<Seq<char>, Seq<Seq<char>>>::empty(),
    {
        let r = ChatState {
            messages: StrMap::new(),
            threads: StrMap::new(),
            active_threads: StrMap::new(),
            typing_users: StrMap::new(),
        };
        assert(r@.messages =~= Map::<Seq<char>, Seq<MessageView>>::empty());
        assert(r@.threads =~= Map::<Seq<char>, Seq<ThreadView>>::empty());
        assert(r@.active_threads =~= Map::<Seq<char>, Seq<char>>::empty());
        assert(r@.typing_users =~= Map::<Seq<char>, Seq<Seq<char>>>::empty());
        r
    }

    /// Takes a message that arrived in `channel`.
    pub fn on_message(&mut self, channel: String, message: Message)
        ensures
            final(self)@ == old(self)@.with_message(channel@, message@),
    {
        let ghost before = self@;
        match &message.thread_ts {
            Some(ts) => {
                self.active_threads.insert(channel.clone(), ts.clone());
                if !self.threads.contains_key(channel.as_str()) {
                    let none: Vec<Thread> = Vec::new();
                    assert(thread_views(none@) =~= Seq::<ThreadView>::empty());
                    self.threads.insert(channel.clone(), none);
                }
                assert(text_map(self.active_threads) =~= before.active_threads.insert(
                    channel@,
                    ts@,
                ));
                assert(thread_map(self.threads) =~= before.threads.insert(
                    channel@,
                    before.threads_in(channel@),
                ));
            },
            None => {},
        }
        match self.messages.index_of(channel.as_str()) {
            Some(i) => {
                proof {
                    lemma_key_index(self.messages.entries@, channel@, 0);
                }
                let mut queue = self.messages.swap_value(i, VecDeque::new());
                let ghost had = message_views(queue@);
                queue.push_back(message);
                assert(message_views(queue@) =~= had.push(message@));
                let _ = self.messages.swap_value(i, queue);
                assert(message_map(self.messages) =~= before.messages.insert(
                    channel@,
                    before.messages_in(channel@).push(message@),
                )) by {
                    assert forall|k: Seq<char>|
                        (key_index(old(self).messages.entries@, k, 0) == Some(i as int)) == (k
                            == channel@) by {
                        lemma_key_index(old(self).messages.entries@, k, 0);
                    }
                }
            },
            None => {
                let mut queue: VecDeque<Message> = VecDeque::new();
                queue.push_back(message);
                assert(message_views(queue@) =~= Seq::<MessageView>::empty().push(message@));
                self.messages.insert(channel, queue);
                assert(message_map(self.messages) =~= before.messages.insert(
                    channel@,
                    before.messages_in(channel@).push(message@),
                ));
            },
        }
    }

    /// Takes the news that `user` is typing in `channel`.
    pub fn on_typing(&mut self, channel: String, user: String)
        ensures
            final(self)@ == old(self)@.with_typing(channel@, user@),
    {
        let ghost before = self@;
        match self.typing_users.index_of(channel.as_str()) {
            Some(i) => {
                let mut users = self.typing_users.swap_value(i, Vec::new());
                let ghost had = texts(users@);
                if !lists_user(&users, &user) {
                    users.push(user);
                    assert(texts(users@) =~= had.push(user@));
                }
                let _ = self.typing_users.swap_value(i, users);
                assert(texts_map(self.typing_users) =~= before.with_typing(
                    channel@,
                    user@,
                ).typing_users) by {
                    assert forall|k: Seq<char>|
                        (key_index(old(self).typing_users.entries@, k, 0) == Some(i as int)) == (k
                            == channel@) by {
                        lemma_key_index(old(self).typing_users.entries@, k, 0);
                        lemma_key_index(old(self).typing_users.entries@, channel@, 0);
                    }
                }
            },
            None => {
                let mut users: Vec<String> = Vec::new();
                assert(!texts(users@).contains(user@));
                users.push(user);
                assert(texts(users@) =~= Seq::<Seq<char>>::empty().push(user@));
                self.typing_users.insert(channel, users);
                assert(texts_map(self.typing_users) =~= before.with_typing(
                    channel@,
                    user@,
                ).typing_users);
            },
        }
    }

    /// Takes the loaded history of a channel, oldest message first, in
    /// the place of what was known of the channel.
    pub fn history_loaded(&mut self, channel_id: String, messages: Vec<Message>)
        ensures
            final(self)@ == old(self)@.with_history(channel_id@, message_views(messages@)),
    {
        let ghost before = self@;
        let mut rest = messages;
        let mut queue: VecDeque<Message> = VecDeque::new();
        while rest.len() > 0
            invariant
                rest@.len() + queue@.len() == messages@.len(),
                forall|i: int| 0 <= i < rest@.len() ==> rest@[i] == messages@[i],
                forall|i: int|
                    0 <= i < queue@.len() ==> queue@[i] == messages@[rest@.len() as int + i],
            decreases rest.len(),
        {
            match rest.pop() {
                Some(last) => {
                    queue.push_front(last);
                },
                None => {},
            }
        }
        assert(queue@ =~= messages@);
        self.messages.insert(channel_id, queue);
        assert(message_map(self.messages) =~= before.messages.insert(
            channel_id@,
            message_views(messages@),
        ));
    }

    /// Applies one event of the stream.
    pub fn apply(&mut self, event: SlackEvent)
        ensures
            final(self)@ == old(self)@.after(event@),
    {
        match event {
            SlackEvent::Message { channel, message } => {
                self.on_message(channel, message);
            },
            SlackEvent::UserTyping { channel, user } => {
                self.on_typing(channel, user);
            },
            _ => {},
        }
    }

    /// Applies the events that were drained from the stream, in the order
    /// in which the stream delivered them.
    pub fn process_slack_events(&mut self, events: Vec<SlackEvent>)
        ensures
            final(self)@ == old(self)@.after_all(event_views(events@)),
    {
        let ghost all = event_views(events@);
        let mut rest = reversed_events(events);
        let ghost total = rest@.len();
        let count = rest.len();
        let mut done: usize = 0;
        assert(all.take(0) =~= Seq::<SlackEventView>::empty());
        while rest.len() > 0
            invariant
                all.len() == total,
                total == count,
                done + rest@.len() == total,
                forall|i: int| 0 <= i < rest@.len() ==> (#[trigger] rest@[i])@ == all[total - 1 - i],
                self@ == old(self)@.after_all(all.take(done as int)),
            decreases rest.len(),
        {
            match rest.pop() {
                Some(event) => {
                    assert(event@ == all[done as int]);
                    assert(all.take(done + 1).drop_last() =~= all.take(done as int));
                    assert(all.take(done + 1).last() == all[done as int]);
                    self.apply(event);
                    done += 1;
                },
                None => {},
            }
        }
        assert(all.take(total as int) =~= all);
    }
}

/// The views of a sequence of events.
pub open spec fn event_views(v: Seq<SlackEvent>) -> Seq<SlackEventView> {
    v.map_values(|e: SlackEvent| e@)
}

/// The events in reverse order, so that the first can be taken off the
/// end.
fn reversed_events(events: Vec<SlackEvent>) -> (out: Vec<SlackEvent>)
    ensures
        out@.len() == events@.len(),
        forall|i: int| 0 <= i < out@.len() ==> out@[i] == events@[events@.len() - 1 - i],
{
    crate::api::reversed(events)
}


/// The least index at or after `from` of the thread under `parent_ts`.
pub open spec fn thread_index(threads: Seq<ThreadView>, parent_ts: Seq<char>, from: int) -> Option<
    int,
>
    decreases threads.len() - from,
{
    if from < 0 || from >= threads.len() {
        None
    } else if threads[from].parent_ts == parent_ts {
        Some(from)
    } else {
        thread_index(threads, parent_ts, from + 1)
    }
}

/// The threads with the replies `replies` under `parent_ts`: in the place
/// of the replies of the first thread under it, or as a new expanded
/// thread at the end.
pub open spec fn threads_with_replies(
    threads: Seq<ThreadView>,
    channel: Seq<char>,
    parent_ts: Seq<char>,
    replies: Seq<MessageView>,
) -> Seq<ThreadView> {
    match thread_index(threads, parent_ts, 0) {
        Some(i) => threads.update(i, ThreadView { replies, ..threads[i] }),
        None => threads.push(
            ThreadView { parent_ts, channel_id: channel, replies, is_collapsed: false },
        ),
    }
}

/// The threads with each collapsed one expanded and each expanded one
/// collapsed.
pub open spec fn toggled(threads: Seq<ThreadView>) -> Seq<ThreadView> {
    threads.map_values(|t: ThreadView| ThreadView { is_collapsed: !t.is_collapsed, ..t })
}

impl ChatView {
    /// The conversations after the replies of a thread were loaded.
    pub open spec fn with_replies(
        self,
        channel: Seq<char>,
        parent_ts: Seq<char>,
        replies: Seq<MessageView>,
    ) -> ChatView {
        ChatView {
            threads: self.threads.insert(
                channel,
                threads_with_replies(self.threads_in(channel), channel, parent_ts, replies),
            ),
            ..self
        }
    }

    /// The conversations with `ts` as the active thread of `channel`.
    pub open spec fn with_active_thread(self, channel: Seq<char>, ts: Seq<char>) -> ChatView {
        ChatView { active_threads: self.active_threads.insert(channel, ts), ..self }
    }

    /// The conversations after every thread of `channel` was toggled.
    pub open spec fn with_toggled_threads(self, channel: Seq<char>) -> ChatView {
        if self.threads.contains_key(channel) {
            ChatView {
                threads: self.threads.insert(channel, toggled(self.threads[channel])),
                ..self
            }
        } else {
            self
        }
    }
}

/// Puts `replies` under `parent_ts` in a list of threads.
fn put_replies(threads: &mut Vec<Thread>, channel_id: &str, parent_ts: &str, replies: Vec<Message>)
    ensures
        thread_views(final(threads)@) == threads_with_replies(
            thread_views(old(threads)@),
            channel_id@,
            parent_ts@,
            message_views(replies@),
        ),
{
    let wanted = parent_ts.to_owned();
    let ghost list = thread_views(threads@);
    let mut i: usize = 0;
    while i < threads.len()
        invariant
            i <= threads.len(),
            wanted@ == parent_ts@,
            *threads == *old(threads),
            list == thread_views(threads@),
            thread_index(list, parent_ts@, 0) == thread_index(list, parent_ts@, i as int),
        decreases threads.len() - i,
    {
        assert(list[i as int] == threads@[i as int]@);
        if threads[i].parent_ts == wanted {
            let found = threads.remove(i);
            let Thread { parent_ts: kept_ts, channel_id: kept_channel, replies: _, is_collapsed } =
                found;
            let updated = Thread {
                parent_ts: kept_ts,
                channel_id: kept_channel,
                replies,
                is_collapsed,
            };
            threads.insert(i, updated);
            assert(thread_views(threads@) =~= list.update(
                i as int,
                ThreadView { replies: message_views(replies@), ..list[i as int] },
            ));
            return ;
        }
        i += 1;
    }
    let mut thread = Thread::new(parent_ts, channel_id);
    thread.replies = replies;
    threads.push(thread);
    assert(thread_views(threads@) =~= list.push(thread@));
}

impl ChatState {
    /// Takes the loaded replies of the thread under `parent_ts`.
    pub fn replies_loaded(&mut self, channel_id: String, parent_ts: &str, replies: Vec<Message>)
        ensures
            final(self)@ == old(self)@.with_replies(
                channel_id@,
                parent_ts@,
                message_views(replies@),
            ),
    {
        let ghost before = self@;
        match self.threads.index_of(channel_id.as_str()) {
            Some(i) => {
                let mut threads = self.threads.swap_value(i, Vec::new());
                put_replies(&mut threads, channel_id.as_str(), parent_ts, replies);
                let _ = self.threads.swap_value(i, threads);
                assert(thread_map(self.threads) =~= before.with_replies(
                    channel_id@,
                    parent_ts@,
                    message_views(replies@),
                ).threads) by {
                    assert forall|k: Seq<char>|
                        (key_index(old(self).threads.entries@, k, 0) == Some(i as int)) == (k
                            == channel_id@) by {
                        lemma_key_index(old(self).threads.entries@, k, 0);
                        lemma_key_index(old(self).threads.entries@, channel_id@, 0);
                    }
                }
            },
            None => {
                let mut threads: Vec<Thread> = Vec::new();
                assert(thread_views(threads@) =~= Seq::<ThreadView>::empty());
                put_replies(&mut threads, channel_id.as_str(), parent_ts, replies);
                self.threads.insert(channel_id, threads);
                assert(thread_map(self.threads) =~= before.with_replies(
                    channel_id@,
                    parent_ts@,
                    message_views(replies@),
                ).threads);
            },
        }
    }

    /// Makes `ts` the active thread of `channel`: the thread that replies
    /// typed in the channel go to.
    pub fn set_active_thread(&mut self, channel: String, ts: String)
        ensures
            final(self)@ == old(self)@.with_active_thread(channel@, ts@),
    {
        let ghost before = self@;
        self.active_threads.insert(channel, ts);
        assert(text_map(self.active_threads) =~= before.active_threads.insert(channel@, ts@));
    }

    /// Collapses the expanded threads of a channel and expands the
    /// collapsed ones.
    pub fn toggle_thread_collapse(&mut self, channel_id: &str)
        ensures
            final(self)@ == old(self)@.with_toggled_threads(channel_id@),
    {
        let ghost before = self@;
        match self.threads.index_of(channel_id) {
            Some(i) => {
                let mut threads = self.threads.swap_value(i, Vec::new());
                let ghost had = thread_views(threads@);
                let mut k: usize = 0;
                while k < threads.len()
                    invariant
                        k <= threads.len(),
                        threads@.len() == had.len(),
                        forall|j: int|
                            0 <= j < k ==> (#[trigger] threads@[j])@ == (ThreadView {
                                is_collapsed: !had[j].is_collapsed,
                                ..had[j]
                            }),
                        forall|j: int| k <= j < threads@.len() ==> (#[trigger] threads@[j])@ == had[j],
                    decreases threads.len() - k,
                {
                    let mut thread = threads.remove(k);
                    thread.toggle_collapse();
                    threads.insert(k, thread);
                    k += 1;
                }
                assert(thread_views(threads@) =~= toggled(had));
                let _ = self.threads.swap_value(i, threads);
                assert(thread_map(self.threads) =~= before.with_toggled_threads(
                    channel_id@,
                ).threads) by {
                    assert forall|k: Seq<char>|
                        (key_index(old(self).threads.entries@, k, 0) == Some(i as int)) == (k
                            == channel_id@) by {
                        lemma_key_index(old(self).threads.entries@, k, 0);
                        lemma_key_index(old(self).threads.entries@, channel_id@, 0);
                    }
                }
            },
            None => {},
        }
    }
}

/// The last failure that the user is told about.
#[derive(Debug)]
pub struct ErrorState {
    pub last_error: Option<String>,
    pub show_error_details: bool,
}

/// How a failure reads to the user: the context, and the failure with its
/// credentials redacted.
pub open spec fn error_summary(context: Seq<char>, error: Seq<char>) -> Seq<char> {
    context + ": "@ + redacted(error)
}

impl ErrorState {
    /// No failure.
    pub fn new() -> (r: ErrorState)
        ensures
            r.last_error is None,
            !r.show_error_details,
    {
        ErrorState { last_error: None, show_error_details: false }
    }

    /// Takes a failure for display, with its credentials redacted.
    pub fn report_error(&mut self, context: &str, error: &str)
        ensures
            opt_text(final(self).last_error) == Some(error_summary(context@, error@)),
            final(self).show_error_details == old(self).show_error_details,
    {
        let safe = redact_sensitive(error);
        self.last_error = Some(join3(context, ": ", safe.as_str()));
    }

    /// Forgets the last failure.
    pub fn clear_error(&mut self)
        ensures
            *final(self) == no_error(),
    {
        self.last_error = None;
        self.show_error_details = false;
    }
}

/// No failure to show.
pub open spec fn no_error() -> ErrorState {
    ErrorState { last_error: None, show_error_details: false }
}

/// What the user is told to do about a failed call.
pub fn actionable_error(error: &CallError) -> (r: String)
    ensures
        r@ == classified(error.message@, error.transport is Some).advice(),
{
    map_anyhow_error(error).user_message().to_owned()
}

/// A reply of the agent to a command.
#[derive(Debug)]
pub struct AgentResponse {
    pub command: String,
    pub response: String,
    /// When the reply arrived, in seconds since the epoch.
    pub timestamp: i64,
}

pub struct AgentResponseView {
    pub command: Seq<char>,
    pub response: Seq<char>,
    pub timestamp: i64,
}

impl View for AgentResponse {
    type V = AgentResponseView;

    open spec fn view(&self) -> AgentResponseView {
        AgentResponseView {
            command: self.command@,
            response: self.response@,
            timestamp: self.timestamp,
        }
    }
}

/// The views of a sequence of replies.
pub open spec fn response_views(v: Seq<AgentResponse>) -> Seq<AgentResponseView> {
    v.map_values(|r: AgentResponse| r@)
}

/// How many replies of the agent are kept.
pub const MAX_AGENT_RESPONSES: usize = 50;

/// How long a command for the agent may take, in seconds.
pub const AGENT_COMMAND_TIMEOUT_SECS: u64 = 15;

/// The replies with `reply` in front, and without the oldest one where
/// more than the limit would be kept.
pub open spec fn with_response(replies: Seq<AgentResponseView>, reply: AgentResponseView) -> Seq<
    AgentResponseView,
> {
    let all = seq![reply] + replies;
    if all.len() > MAX_AGENT_RESPONSES {
        all.drop_last()
    } else {
        all
    }
}

/// What the client holds of the agent.
#[derive(Debug)]
pub struct AgentPanel {
    pub runner: Option<AgentRunner>,
    pub status: AgentStatus,
    /// The replies, newest first.
    pub responses: VecDeque<AgentResponse>,
    pub processing: bool,
    pub loading_command: Option<String>,
    pub loading_start_time: Option<u64>,
}

impl AgentPanel {
    /// The panel of an agent that is not available.
    pub fn new() -> (r: AgentPanel)
        ensures
            r.runner is None,
            r.status == AgentStatus::Unavailable,
            r.responses@.len() == 0,
            !r.processing,
            r.loading_command is None,
            r.loading_start_time is None,
    {
        AgentPanel {
            runner: None,
            status: AgentStatus::Unavailable,
            responses: VecDeque::new(),
            processing: false,
            loading_command: None,
            loading_start_time: None,
        }
    }

    /// Ends the wait for the agent: nothing is processing or loading any
    /// more.
    pub fn finish_command(&mut self)
        ensures
            *final(self) == (AgentPanel {
                processing: false,
                loading_command: None,
                loading_start_time: None,
                ..*old(self)
            }),
    {
        self.processing = false;
        self.loading_command = None;
        self.loading_start_time = None;
    }

    /// Keeps a reply of the agent in front of the others. Of more replies
    /// than the limit the oldest is dropped.
    pub fn push_response(&mut self, reply: AgentResponse)
        ensures
            response_views(final(self).responses@) == with_response(
                response_views(old(self).responses@),
                reply@,
            ),
            *final(self) == (AgentPanel { responses: final(self).responses, ..*old(self) }),
    {
        let ghost before = response_views(self.responses@);
        self.responses.push_front(reply);
        assert(response_views(self.responses@) =~= seq![reply@] + before);
        if self.responses.len() > MAX_AGENT_RESPONSES {
            let ghost all = response_views(self.responses@);
            let _ = self.responses.pop_back();
            assert(response_views(self.responses@) =~= all.drop_last());
        }
    }
}

/// A result of background work, handed to the presentation loop.
#[derive(Debug)]
pub enum AppAsyncEvent {
    SlackSendResult { context: String, error: Option<String> },
    ChannelHistoryLoaded { channel_id: String, messages: Vec<Message>, error: Option<String> },
    ThreadRepliesLoaded {
        channel_id: String,
        parent_ts: String,
        replies: Vec<Message>,
        error: Option<String>,
    },
    AgentCommandFinished { command: String, response: Option<String>, error: Option<String> },
    OAuthCompleted { workspace: Option<Workspace>, error: Option<String> },
    ZeroClawPairingFinished { runner: Option<AgentRunner>, error: Option<String> },
}

/// What the presentation loop has to do after it applied a result.
#[derive(Debug)]
pub enum Effect {
    /// Nothing.
    Nothing,
    /// Store this session, and report the outcome with `session_saved`.
    SaveSession(Session),
}

/// How a command for the agent ended.
#[derive(Debug)]
pub enum AgentOutcome {
    /// The agent replied with this text.
    Reply(String),
    /// The request failed with this message.
    Failed(String),
    /// The agent did not reply in time.
    TimedOut,
}

/// The result that tells the client how a command for the agent ended. A
/// command without a reply in time has failed, and is not tried again.
pub fn agent_command_finished(command: String, outcome: AgentOutcome) -> (r: AppAsyncEvent)
    ensures
        r matches AppAsyncEvent::AgentCommandFinished { command: c, response, error } && c
            == command && match outcome {
            AgentOutcome::Reply(text) => response == Some(text) && error is None,
            AgentOutcome::Failed(message) => response is None && opt_text(error) == Some(
                "Agent command failed: "@ + message@,
            ),
            AgentOutcome::TimedOut => response is None && opt_text(error) == Some(
                "Agent command failed: timed out after 15s"@,
            ),
        },
{
    match outcome {
        AgentOutcome::Reply(text) => AppAsyncEvent::AgentCommandFinished {
            command,
            response: Some(text),
            error: None,
        },
        AgentOutcome::Failed(message) => AppAsyncEvent::AgentCommandFinished {
            command,
            response: None,
            error: Some(join2("Agent command failed: ", message.as_str())),
        },
        AgentOutcome::TimedOut => AppAsyncEvent::AgentCommandFinished {
            command,
            response: None,
            error: Some("Agent command failed: timed out after 15s".to_owned()),
        },
    }
}

/// The part of the main screen that takes the keys.
#[derive(Clone, Copy, Debug, PartialEq, Eq)]
pub enum Focus {
    Sidebar,
    Messages,
    Input,
}

impl Focus {
    /// The part that Tab moves to: from the sidebar to the messages, from
    /// there to the input line, and round again.
    pub open spec fn next(self) -> Focus {
        match self {
            Focus::Sidebar => Focus::Messages,
            Focus::Messages => Focus::Input,
            Focus::Input => Focus::Sidebar,
        }
    }
}

/// What the client holds while it runs.
#[derive(Debug)]
pub struct App {
    pub should_quit: bool,
    pub session: Option<Session>,
    pub config: Config,
    pub workspaces: Vec<WorkspaceState>,
    pub active_workspace: usize,
    pub input: InputState,
    pub agent: AgentPanel,
    pub chat: ChatState,
    pub errors: ErrorState,
    pub onboarding: Option<OnboardingState>,
    pub channels: Vec<Channel>,
    pub selected_channel: Option<usize>,
    pub scroll_offset: usize,
    pub is_loading: bool,
    pub loading_message: String,
    pub edit_message: Option<EditState>,
    pub context_menu: Option<ContextMenu>,
    pub message_filter: MessageFilter,
    /// The part of the main screen that takes the keys.
    pub focus: Focus,
    /// The channel of the sidebar that the cursor stands on.
    pub sidebar_cursor: usize,
    /// The first channel of the sidebar that is shown.
    pub sidebar_scroll: usize,
    pub show_help: bool,
    pub show_workspace_picker: bool,
    pub show_channel_search: bool,
    pub search_query: String,
    pub show_jump_to_time: bool,
    pub jump_to_time_buffer: String,
    pub show_user_filter: bool,
    /// The channel and the timestamp id of the message under the menu.
    pub selected_message: Option<(String, String)>,
    pub layout: LayoutState,
    pub drag_target: Option<DragTarget>,
    /// The column and the row of the last mouse event.
    pub last_mouse_pos: (u16, u16),
}

impl App {
    /// The client holds nothing yet but its settings: it is loading, no
    /// session, no workspace and no channel is known, nothing is typed,
    /// open or selected, and the agent is unavailable.
    pub open spec fn is_initial(self, config: Config) -> bool {
        &&& self.config == config
        &&& !self.should_quit
        &&& self.session is None
        &&& self.workspaces@.len() == 0
        &&& self.active_workspace == 0
        &&& self.input.is_cleared()
        &&& self.agent.runner is None
        &&& self.agent.status == AgentStatus::Unavailable
        &&& self.agent.responses@.len() == 0
        &&& !self.agent.processing
        &&& self.agent.loading_command is None
        &&& self.agent.loading_start_time is None
        &&& self.chat@.messages == Map::<Seq<char>, Seq<MessageView>>::empty()
        &&& self.chat@.threads == Map::<Seq<char>, Seq<ThreadView>>::empty()
        &&& self.chat@.active_threads == Map::<Seq<char>, Seq<char>>::empty()
        &&& self.chat@.typing_users == Map::<Seq<char>, Seq<Seq<char>>>::empty()
        &&& self.errors == no_error()
        &&& self.onboarding is None
        &&& self.channels@.len() == 0
        &&& self.selected_channel is None
        &&& self.scroll_offset == 0
        &&& self.is_loading
        &&& self.loading_message@ == "Loading..."@
        &&& self.edit_message is None
        &&& self.context_menu is None
        &&& self.message_filter.user_id is None
        &&& self.message_filter.show_threads
        &&& self.focus == Focus::Sidebar
        &&& self.sidebar_cursor == 0
        &&& self.sidebar_scroll == 0
        &&& !self.show_help
        &&& !self.show_workspace_picker
        &&& !self.show_channel_search
        &&& self.search_query@.len() == 0
        &&& !self.show_jump_to_time
        &&& self.jump_to_time_buffer@.len() == 0
        &&& !self.show_user_filter
        &&& self.selected_message is None
        &&& self.layout.sidebar_width == 20
        &&& self.layout.agent_width == 26
        &&& self.layout.cached_panels@.len() == 0
        &&& self.drag_target is None
        &&& self.last_mouse_pos == (0u16, 0u16)
    }

    /// The client before anything was loaded.
    pub fn new(config: Config) -> (r: App)
        ensures
            r.is_initial(config),
    {
        App {
            should_quit: false,
            session: None,
            config,
            workspaces: Vec::new(),
            active_workspace: 0,
            input: InputState::new(),
            agent: AgentPanel::new(),
            chat: ChatState::new(),
            errors: ErrorState::new(),
            onboarding: None,
            channels: Vec::new(),
            selected_channel: None,
            scroll_offset: 0,
            is_loading: true,
            loading_message: "Loading...".to_owned(),
            edit_message: None,
            context_menu: None,
            message_filter: MessageFilter::default(),
            focus: Focus::Sidebar,
            sidebar_cursor: 0,
            sidebar_scroll: 0,
            show_help: false,
            show_workspace_picker: false,
            show_channel_search: false,
            search_query: String::new(),
            show_jump_to_time: false,
            jump_to_time_buffer: String::new(),
            show_user_filter: false,
            selected_message: None,
            layout: LayoutState::default(),
            drag_target: None,
            last_mouse_pos: (0, 0),
        }
    }

    /// The id of the selected channel.
    pub fn get_active_channel_id(&self) -> (r: Option<String>)
        ensures
            opt_text(r) == match self.selected_channel {
                Some(i) => if i < self.channels@.len() {
                    Some(self.channels@[i as int].id@)
                } else {
                    None
                },
                None => None,
            },
    {
        match self.selected_channel {
            Some(i) => if i < self.channels.len() {
                Some(self.channels[i].id.clone())
            } else {
                None
            },
            None => None,
        }
    }

    /// `after` is `self` with the failure `error` shown in the context
    /// `context`: nothing but the failure changes.
    pub open spec fn shows_error(self, context: Seq<char>, error: Seq<char>, after: App) -> bool {
        after == (App {
            errors: ErrorState { last_error: after.errors.last_error, ..self.errors },
            ..self
        }) && opt_text(after.errors.last_error) == Some(error_summary(context, error))
    }

    /// Applies the events that were drained from the stream to the
    /// conversations, in order. Nothing else changes.
    pub fn process_slack_events(&mut self, events: Vec<SlackEvent>)
        ensures
            *final(self) == (App { chat: final(self).chat, ..*old(self) }),
            final(self).chat@ == old(self).chat@.after_all(event_views(events@)),
    {
        self.chat.process_slack_events(events);
    }

    /// `after` is `self` after the outcome of a call that only reports
    /// success or failure: a failure is shown, a success forgets the last
    /// failure.
    pub open spec fn send_result_applied(
        self,
        context: Seq<char>,
        error: Option<String>,
        after: App,
    ) -> bool {
        match error {
            Some(e) => self.shows_error(context, e@, after),
            None => after == (App { errors: no_error(), ..self }),
        }
    }

    /// Takes the outcome of a call that only reports success or failure.
    pub fn send_result(&mut self, context: &str, error: Option<String>)
        ensures
            old(self).send_result_applied(context@, error, *final(self)),
    {
        match error {
            Some(e) => self.errors.report_error(context, e.as_str()),
            None => self.errors.clear_error(),
        }
    }

    /// `after` is `self` after the history of a channel was loaded, or
    /// failed to load. A failure is shown and leaves the conversations as
    /// they were.
    pub open spec fn history_applied(
        self,
        channel_id: Seq<char>,
        messages: Seq<MessageView>,
        error: Option<String>,
        after: App,
    ) -> bool {
        match error {
            Some(e) => self.shows_error("Failed to load channel history"@, e@, after),
            None => after == (App { chat: after.chat, errors: no_error(), ..self }) && after.chat@
                == self.chat@.with_history(channel_id, messages),
        }
    }

    /// Takes the loaded history of a channel, or the failure to load it.
    pub fn channel_history_loaded(
        &mut self,
        channel_id: String,
        messages: Vec<Message>,
        error: Option<String>,
    )
        ensures
            old(self).history_applied(
                channel_id@,
                message_views(messages@),
                error,
                *final(self),
            ),
    {
        match error {
            Some(e) => self.errors.report_error("Failed to load channel history", e.as_str()),
            None => {
                self.chat.history_loaded(channel_id, messages);
                self.errors.clear_error();
            },
        }
    }

    /// `after` is `self` after the replies of a thread were loaded, or
    /// failed to load. A failure is shown; it and an empty list of
    /// replies leave the conversations as they were.
    pub open spec fn replies_applied(
        self,
        channel_id: Seq<char>,
        parent_ts: Seq<char>,
        replies: Seq<MessageView>,
        error: Option<String>,
        after: App,
    ) -> bool {
        match error {
            Some(e) => self.shows_error("Failed to load thread replies"@, e@, after),
            None => if replies.len() > 0 {
                after == (App { chat: after.chat, errors: no_error(), ..self }) && after.chat@
                    == self.chat@.with_replies(channel_id, parent_ts, replies)
            } else {
                after == self
            },
        }
    }

    /// Takes the loaded replies of a thread, or the failure to load them.
    pub fn thread_replies_loaded(
        &mut self,
        channel_id: String,
        parent_ts: String,
        replies: Vec<Message>,
        error: Option<String>,
    )
        ensures
            old(self).replies_applied(
                channel_id@,
                parent_ts@,
                message_views(replies@),
                error,
                *final(self),
            ),
    {
        match error {
            Some(e) => self.errors.report_error("Failed to load thread replies", e.as_str()),
            None => if replies.len() > 0 {
                self.chat.replies_loaded(channel_id, parent_ts.as_str(), replies);
                self.errors.clear_error();
            },
        }
    }

    /// `after` is `self` after a command for the agent ended at `now`: the
    /// wait is over; a failure is shown; a reply is kept in front of the
    /// earlier ones and forgets the last failure.
    pub open spec fn agent_done_applied(
        self,
        command: Seq<char>,
        response: Option<String>,
        error: Option<String>,
        now: i64,
        after: App,
    ) -> bool {
        let idle = AgentPanel {
            processing: false,
            loading_command: None,
            loading_start_time: None,
            ..self.agent
        };
        match (error, response) {
            (Some(e), _) => (App { agent: idle, ..self }).shows_error(
                "Agent command failed"@,
                e@,
                after,
            ),
            (None, Some(text)) => after == (App {
                agent: AgentPanel { responses: after.agent.responses, ..idle },
                errors: no_error(),
                ..self
            }) && response_views(after.agent.responses@) == with_response(
                response_views(self.agent.responses@),
                AgentResponseView { command, response: text@, timestamp: now },
            ),
            (None, None) => after == (App { agent: idle, errors: no_error(), ..self }),
        }
    }

    /// Takes the end of a command for the agent at `now`, in seconds
    /// since the epoch.
    pub fn agent_command_done(
        &mut self,
        command: String,
        response: Option<String>,
        error: Option<String>,
        now: i64,
    )
        ensures
            old(self).agent_done_applied(command@, response, error, now, *final(self)),
    {
        self.agent.finish_command();
        match error {
            Some(e) => self.errors.report_error("Agent command failed", e.as_str()),
            None => {
                match response {
                    Some(text) => {
                        self.agent.push_response(
                            AgentResponse { command, response: text, timestamp: now },
                        );
                    },
                    None => {},
                }
                self.errors.clear_error();
            },
        }
    }

    /// `after` is `self` after the end of an OAuth exchange. A failure is
    /// shown, on the wizard too. A workspace joins the session, in which
    /// exactly one workspace is active, and `r` hands the session out to be stored:
    /// the client keeps it only once `session_saved` reports that it was
    /// stored.
    pub open spec fn oauth_applied(
        self,
        workspace: Option<Workspace>,
        error: Option<String>,
        after: App,
        r: Effect,
    ) -> bool {
        match (error, workspace) {
            (Some(e), _) => r is Nothing && (App {
                onboarding: match self.onboarding {
                    Some(wizard) => Some(OnboardingState { error_message: Some(e), ..wizard }),
                    None => None,
                },
                ..self
            }).shows_error("OAuth completion failed"@, e@, after),
            (None, Some(joined)) => r is SaveSession && after == (App { session: None, ..self })
                && r->SaveSession_0.zeroclaw_bearer == (match self.session {
                Some(held) => held.zeroclaw_bearer,
                None => None,
            }) && workspace_views(r->SaveSession_0.workspaces@) == after_joining(
                match self.session {
                    Some(held) => workspace_views(held.workspaces@),
                    None => Seq::empty(),
                },
                joined@,
            ),
            (None, None) => r is Nothing && after == self,
        }
    }

    /// Takes the end of an OAuth exchange.
    pub fn oauth_completed(&mut self, workspace: Option<Workspace>, error: Option<String>) -> (r:
        Effect)
        ensures
            old(self).oauth_applied(workspace, error, *final(self), r),
    {
        match error {
            Some(e) => {
                self.errors.report_error("OAuth completion failed", e.as_str());
                match &mut self.onboarding {
                    Some(wizard) => {
                        wizard.error_message = Some(e);
                    },
                    None => {},
                }
                Effect::Nothing
            },
            None => match workspace {
                Some(joined) => {
                    let mut session = match self.session.take() {
                        Some(held) => held,
                        None => Session::new(),
                    };
                    assert(workspace_views(session.workspaces@) =~= match old(self).session {
                        Some(held) => workspace_views(held.workspaces@),
                        None => Seq::empty(),
                    });
                    session.add_workspace(joined);
                    Effect::SaveSession(session)
                },
                None => Effect::Nothing,
            },
        }
    }

    /// `after` is `self` after `session` was stored, or failed to be
    /// stored. A stored session is kept, the wizard moves on, and the last
    /// failure is forgotten; a failure is shown and the session is not
    /// kept.
    pub open spec fn session_saved_applied(
        self,
        session: Session,
        outcome: Result<(), String>,
        after: App,
    ) -> bool {
        match outcome {
            Ok(_) => after == (App {
                session: Some(session),
                onboarding: match self.onboarding {
                    Some(wizard) => Some(
                        OnboardingState {
                            error_message: None,
                            current_screen: wizard.current_screen.next(),
                            ..wizard
                        },
                    ),
                    None => None,
                },
                errors: no_error(),
                ..self
            }),
            Err(e) => self.shows_error("Failed to persist OAuth session"@, e@, after),
        }
    }

    /// Takes the outcome of storing `session`.
    pub fn session_saved(&mut self, session: Session, outcome: Result<(), String>)
        ensures
            old(self).session_saved_applied(session, outcome, *final(self)),
    {
        match outcome {
            Ok(_) => {
                self.session = Some(session);
                match &mut self.onboarding {
                    Some(wizard) => {
                        wizard.error_message = None;
                        wizard.next_screen();
                    },
                    None => {},
                }
                self.errors.clear_error();
            },
            Err(e) => {
                self.errors.report_error("Failed to persist OAuth session", e.as_str());
            },
        }
    }

    /// `after` is `self` after a start of the agent ended: a failure is
    /// shown and becomes the status; a supervisor is kept, the agent is
    /// active, and the last failure is forgotten.
    pub open spec fn pairing_applied(
        self,
        runner: Option<AgentRunner>,
        error: Option<String>,
        after: App,
    ) -> bool {
        match (error, runner) {
            (Some(e), _) => (App {
                agent: AgentPanel { status: AgentStatus::Error(e), ..self.agent },
                ..self
            }).shows_error("ZeroClaw pairing failed"@, e@, after),
            (None, Some(started)) => after == (App {
                agent: AgentPanel {
                    status: AgentStatus::Active,
                    runner: Some(started),
                    ..self.agent
                },
                errors: no_error(),
                ..self
            }),
            (None, None) => after == self,
        }
    }

    /// Takes the end of a start of the agent.
    pub fn pairing_finished(&mut self, runner: Option<AgentRunner>, error: Option<String>)
        ensures
            old(self).pairing_applied(runner, error, *final(self)),
    {
        match error {
            Some(e) => {
                self.errors.report_error("ZeroClaw pairing failed", e.as_str());
                self.agent.status = AgentStatus::Error(e);
            },
            None => match runner {
                Some(started) => {
                    self.agent.status = AgentStatus::Active;
                    self.agent.runner = Some(started);
                    self.errors.clear_error();
                },
                None => {},
            },
        }
    }

    /// `after` is `self` after the result `event` of background work was
    /// applied at `now`, and `r` is what the presentation loop has to do
    /// for it: each kind of result is applied as the function of its kind
    /// says, and only the end of an OAuth exchange asks for more.
    pub open spec fn event_applied(self, event: AppAsyncEvent, now: i64, after: App, r: Effect)
        -> bool {
        match event {
            AppAsyncEvent::SlackSendResult { context, error } => r is Nothing
                && self.send_result_applied(context@, error, after),
            AppAsyncEvent::ChannelHistoryLoaded { channel_id, messages, error } => r is Nothing
                && self.history_applied(channel_id@, message_views(messages@), error, after),
            AppAsyncEvent::ThreadRepliesLoaded { channel_id, parent_ts, replies, error } => r
                is Nothing && self.replies_applied(
                channel_id@,
                parent_ts@,
                message_views(replies@),
                error,
                after,
            ),
            AppAsyncEvent::AgentCommandFinished { command, response, error } => r is Nothing
                && self.agent_done_applied(command@, response, error, now, after),
            AppAsyncEvent::OAuthCompleted { workspace, error } => self.oauth_applied(
                workspace,
                error,
                after,
                r,
            ),
            AppAsyncEvent::ZeroClawPairingFinished { runner, error } => r is Nothing
                && self.pairing_applied(runner, error, after),
        }
    }

    /// Applies one result of background work at `now`, in seconds since
    /// the epoch, and says what the presentation loop has to do for it.
    pub fn apply_async_event(&mut self, event: AppAsyncEvent, now: i64) -> (r: Effect)
        ensures
            old(self).event_applied(event, now, *final(self), r),
    {
        match event {
            AppAsyncEvent::SlackSendResult { context, error } => {
                self.send_result(context.as_str(), error);
                Effect::Nothing
            },
            AppAsyncEvent::ChannelHistoryLoaded { channel_id, messages, error } => {
                self.channel_history_loaded(channel_id, messages, error);
                Effect::Nothing
            },
            AppAsyncEvent::ThreadRepliesLoaded { channel_id, parent_ts, replies, error } => {
                self.thread_replies_loaded(channel_id, parent_ts, replies, error);
                Effect::Nothing
            },
            AppAsyncEvent::AgentCommandFinished { command, response, error } => {
                self.agent_command_done(command, response, error, now);
                Effect::Nothing
            },
            AppAsyncEvent::OAuthCompleted { workspace, error } => self.oauth_completed(
                workspace,
                error,
            ),
            AppAsyncEvent::ZeroClawPairingFinished { runner, error } => {
                self.pairing_finished(runner, error);
                Effect::Nothing
            },
        }
    }
}

} // verus!
