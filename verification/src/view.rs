//! The texts that the screen shows of the conversations.

use crate::keys::{clock_text, formatted_time, CLOCK_PATTERN};
use crate::state::{thread_index, thread_views, App, ThreadView};
use crate::text::{decimal_string, decimal_text, join2, join3, join_with, joined_with, texts};
use crate::types::{
    message_views, reaction_views, Message, MessageView, Reaction, ReactionView, Thread,
};
use vstd::prelude::*;

verus! {

/// How the time of day of the instant `secs` reads; dashes where the
/// calendar does not hold the instant.
pub open spec fn clock_of(secs: i64) -> Seq<char> {
    match formatted_time(secs, CLOCK_PATTERN@) {
        Some(text) => text,
        None => "--:--"@,
    }
}

/// How the time of day of the instant `secs` reads.
pub fn clock(secs: i64) -> (r: String)
    ensures
        r@ == clock_of(secs),
{
    match clock_text(secs) {
        Some(text) => text,
        None => "--:--".to_owned(),
    }
}

/// How a reaction reads: its name, a colon, and how often it was given.
pub open spec fn reaction_text(r: ReactionView) -> Seq<char> {
    r.name + ":"@ + decimal_text(r.count as nat)
}

/// How the reactions `list` read, each as `reaction_text` says.
pub open spec fn reaction_texts(list: Seq<ReactionView>) -> Seq<Seq<char>> {
    list.map_values(|r: ReactionView| reaction_text(r))
}

/// Whether the message has replies.
pub open spec fn has_replies(m: MessageView) -> bool {
    m.reply_count is Some && m.reply_count->0 > 0
}

/// What stands in front of the line of the message: an arrow to the
/// right for a reply, an arrow down for a message with replies.
pub open spec fn thread_mark(m: MessageView) -> Seq<char> {
    if m.thread_ts is Some {
        "  \u{21b3} "@
    } else if has_replies(m) {
        "  \u{21e9} "@
    } else {
        Seq::empty()
    }
}

/// The line of the message: the time, the author and the text, with
/// marks for threads and edits, and the reactions and the number of
/// replies behind it. Of a deleted message only the time is shown.
pub open spec fn message_line_text(m: MessageView) -> Seq<char> {
    if m.is_deleted {
        clock_of(m.timestamp) + " [message deleted]"@
    } else {
        thread_mark(m) + clock_of(m.timestamp) + " "@ + m.username + (if m.is_edited {
            " (edited)"@
        } else {
            Seq::empty()
        }) + ": "@ + m.text + (if m.reactions.len() > 0 {
            " ["@ + joined_with(reaction_texts(m.reactions), " "@) + "]"@
        } else {
            Seq::empty()
        }) + (if has_replies(m) {
            " (+"@ + decimal_text(m.reply_count->0 as nat) + " replies)"@
        } else {
            Seq::empty()
        })
    }
}

/// The line of a reply under its message.
pub open spec fn reply_line_text(m: MessageView) -> Seq<char> {
    "    \u{21b3} "@ + clock_of(m.timestamp) + " "@ + m.username + ": "@ + m.text
}

/// The lines of the replies `replies`.
pub open spec fn reply_line_texts(replies: Seq<MessageView>) -> Seq<Seq<char>> {
    replies.map_values(|m: MessageView| reply_line_text(m))
}

/// The lines of a thread under its message: its replies, or one line
/// that counts them where the thread is collapsed.
pub open spec fn thread_line_texts(thread: ThreadView) -> Seq<Seq<char>> {
    if thread.is_collapsed {
        seq!["    ["@ + decimal_text(thread.replies.len()) + " replies - press t to expand]"@]
    } else {
        reply_line_texts(thread.replies)
    }
}

/// The lines that the message takes on the screen: none where the filter
/// by author leaves it out; else its own line and, where threads are
/// shown and the message is not deleted, the lines of the thread that it
/// belongs to or starts.
pub open spec fn lines_for(
    m: MessageView,
    threads: Seq<ThreadView>,
    author: Option<Seq<char>>,
    show_threads: bool,
) -> Seq<Seq<char>> {
    if author is Some && author->0 != m.user_id {
        Seq::empty()
    } else if m.is_deleted || !show_threads {
        seq![message_line_text(m)]
    } else {
        let key = match m.thread_ts {
            Some(ts) => ts,
            None => m.ts,
        };
        match thread_index(threads, key, 0) {
            Some(i) => seq![message_line_text(m)] + thread_line_texts(threads[i]),
            None => seq![message_line_text(m)],
        }
    }
}

/// The lines that the messages `messages` take on the screen, in order.
pub open spec fn lines_of(
    messages: Seq<MessageView>,
    threads: Seq<ThreadView>,
    author: Option<Seq<char>>,
    show_threads: bool,
) -> Seq<Seq<char>>
    decreases messages.len(),
{
    if messages.len() == 0 {
        Seq::empty()
    } else {
        lines_of(messages.drop_last(), threads, author, show_threads) + lines_for(
            messages.last(),
            threads,
            author,
            show_threads,
        )
    }
}

/// How a reaction reads.
fn reaction_label(r: &Reaction) -> (out: String)
    ensures
        out@ == reaction_text(r@),
{
    let count = decimal_string(r.count as u64);
    join3(r.name.as_str(), ":", count.as_str())
}

/// The line of the message.
pub fn message_line(m: &Message) -> (out: String)
    ensures
        out@ == message_line_text(m@),
{
    let time = clock(m.timestamp);
    if m.is_deleted {
        return join2(time.as_str(), " [message deleted]");
    }
    let replies = match m.reply_count {
        Some(n) => n > 0,
        None => false,
    };
    let mut line = if m.thread_ts.is_some() {
        "  \u{21b3} ".to_owned()
    } else if replies {
        "  \u{21e9} ".to_owned()
    } else {
        String::new()
    };
    line.append(time.as_str());
    line.append(" ");
    line.append(m.username.as_str());
    if m.is_edited {
        line.append(" (edited)");
    }
    line.append(": ");
    line.append(m.text.as_str());
    assert(line@ =~= thread_mark(m@) + clock_of(m.timestamp) + " "@ + m.username@ + (
    if m.is_edited {
        " (edited)"@
    } else {
        Seq::empty()
    }) + ": "@ + m.text@);
    let ghost head = line@;
    if m.reactions.len() > 0 {
        let mut labels: Vec<String> = Vec::new();
        let mut i: usize = 0;
        while i < m.reactions.len()
            invariant
                i <= m.reactions.len(),
                labels@.len() == i,
                forall|k: int|
                    0 <= k < i ==> (#[trigger] labels@[k])@ == reaction_text(m.reactions@[k]@),
            decreases m.reactions.len() - i,
        {
            labels.push(reaction_label(&m.reactions[i]));
            i += 1;
        }
        assert(texts(labels@) =~= reaction_texts(reaction_views(m.reactions@)));
        let all = join_with(&labels, " ");
        line.append(" [");
        line.append(all.as_str());
        line.append("]");
        assert(line@ =~= head + (" ["@ + joined_with(reaction_texts(m@.reactions), " "@)
            + "]"@));
    } else {
        assert(line@ =~= head + Seq::<char>::empty());
    }
    let ghost middle = line@;
    match m.reply_count {
        Some(n) => {
            if n > 0 {
                let count = decimal_string(n as u64);
                line.append(" (+");
                line.append(count.as_str());
                line.append(" replies)");
                assert(line@ =~= middle + (" (+"@ + decimal_text(n as nat) + " replies)"@));
            } else {
                assert(line@ =~= middle + Seq::<char>::empty());
            }
        },
        None => {
            assert(line@ =~= middle + Seq::<char>::empty());
        },
    }
    line
}

/// The line of a reply under its message.
pub fn reply_line(m: &Message) -> (out: String)
    ensures
        out@ == reply_line_text(m@),
{
    let time = clock(m.timestamp);
    let mut line = "    \u{21b3} ".to_owned();
    line.append(time.as_str());
    line.append(" ");
    line.append(m.username.as_str());
    line.append(": ");
    line.append(m.text.as_str());
    line
}

/// Adds the lines of a thread to `lines`.
fn push_thread_lines(lines: &mut Vec<String>, thread: &Thread)
    ensures
        texts(final(lines)@) == texts(old(lines)@) + thread_line_texts(thread@),
{
    let ghost before = texts(lines@);
    if thread.is_collapsed {
        let count = decimal_string(thread.replies.len() as u64);
        let line = join3("    [", count.as_str(), " replies - press t to expand]");
        lines.push(line);
        assert(message_views(thread.replies@).len() == thread.replies@.len());
        assert(texts(lines@) =~= before + thread_line_texts(thread@));
    } else {
        let mut i: usize = 0;
        let ghost all = reply_line_texts(message_views(thread.replies@));
        assert(texts(lines@) =~= before + all.take(0));
        while i < thread.replies.len()
            invariant
                i <= thread.replies.len(),
                all == reply_line_texts(message_views(thread.replies@)),
                texts(lines@) == before + all.take(i as int),
            decreases thread.replies.len() - i,
        {
            let line = reply_line(&thread.replies[i]);
            let ghost so_far = texts(lines@);
            lines.push(line);
            assert(all[i as int] == reply_line_text(thread.replies@[i as int]@));
            assert(texts(lines@) =~= so_far.push(line@));
            assert(all.take(i + 1) =~= all.take(i as int).push(all[i as int]));
            assert(texts(lines@) =~= before + all.take(i + 1));
            i += 1;
        }
        assert(all.take(thread.replies.len() as int) =~= all);
    }
}

/// The first thread of `threads` under `parent_ts`.
fn find_thread<'a>(threads: &'a Vec<Thread>, parent_ts: &String) -> (r: Option<&'a Thread>)
    ensures
        match r {
            Some(thread) => thread_index(thread_views(threads@), parent_ts@, 0) matches Some(i)
                && thread_views(threads@)[i] == thread@,
            None => thread_index(thread_views(threads@), parent_ts@, 0) is None,
        },
{
    let ghost list = thread_views(threads@);
    let mut i: usize = 0;
    while i < threads.len()
        invariant
            i <= threads.len(),
            list == thread_views(threads@),
            thread_index(list, parent_ts@, 0) == thread_index(list, parent_ts@, i as int),
        decreases threads.len() - i,
    {
        assert(list[i as int] == threads@[i as int]@);
        if threads[i].parent_ts == *parent_ts {
            return Some(&threads[i]);
        }
        i += 1;
    }
    None
}

impl App {
    /// The lines that the messages of `channel_id` take on the screen,
    /// under the filter of the client; `None` where nothing is known of
    /// the channel.
    pub open spec fn channel_lines(self, channel_id: Seq<char>) -> Option<Seq<Seq<char>>> {
        if self.chat@.messages.contains_key(channel_id) {
            Some(
                lines_of(
                    self.chat@.messages[channel_id],
                    self.chat@.threads_in(channel_id),
                    crate::text::opt_text(self.message_filter.user_id),
                    self.message_filter.show_threads,
                ),
            )
        } else {
            None
        }
    }

    /// The messages of `channel_id` as the screen shows them, one line
    /// under the other.
    pub fn message_lines(&self, channel_id: &str) -> (r: Option<String>)
        ensures
            match r {
                Some(text) => self.channel_lines(channel_id@) is Some && text@ == joined_with(
                    self.channel_lines(channel_id@)->0,
                    "\n"@,
                ),
                None => self.channel_lines(channel_id@) is None,
            },
    {
        let queue = match self.chat.messages.get(channel_id) {
            Some(queue) => queue,
            None => {
                return None;
            },
        };
        let none: Vec<Thread> = Vec::new();
        assert(thread_views(none@) =~= Seq::<ThreadView>::empty());
        let threads = match self.chat.threads.get(channel_id) {
            Some(threads) => threads,
            None => &none,
        };
        let ghost all = message_views(queue@);
        let ghost known = thread_views(threads@);
        let ghost author = crate::text::opt_text(self.message_filter.user_id);
        let show = self.message_filter.show_threads;
        let mut lines: Vec<String> = Vec::new();
        let mut i: usize = 0;
        assert(all.take(0) =~= Seq::<MessageView>::empty());
        assert(texts(lines@) =~= Seq::<Seq<char>>::empty());
        while i < queue.len()
            invariant
                i <= queue.len(),
                all == message_views(queue@),
                known == thread_views(threads@),
                author == crate::text::opt_text(self.message_filter.user_id),
                show == self.message_filter.show_threads,
                texts(lines@) == lines_of(all.take(i as int), known, author, show),
            decreases queue.len() - i,
        {
            let m = &queue[i];
            assert(all.take(i + 1).drop_last() =~= all.take(i as int));
            assert(all.take(i + 1).last() == m@);
            let ghost before = texts(lines@);
            let shown = match &self.message_filter.user_id {
                Some(user) => *user == m.user_id,
                None => true,
            };
            if shown {
                let line = message_line(m);
                lines.push(line);
                assert(texts(lines@) =~= before + seq![message_line_text(m@)]);
                if !m.is_deleted && show {
                    let key = match &m.thread_ts {
                        Some(ts) => ts,
                        None => &m.ts,
                    };
                    match find_thread(threads, key) {
                        Some(thread) => {
                            push_thread_lines(&mut lines, thread);
                            assert(texts(lines@) =~= before + (seq![message_line_text(m@)]
                                + thread_line_texts(thread@)));
                        },
                        None => {},
                    }
                }
            } else {
                assert(texts(lines@) =~= before + Seq::<Seq<char>>::empty());
            }
            i += 1;
        }
        assert(all.take(queue.len() as int) =~= all);
        Some(join_with(&lines, "\n"))
    }

    /// What the top bar says of who is typing in the selected channel:
    /// the first three of them, and dots where there are more.
    pub open spec fn typing_text(self) -> Seq<char> {
        match self.active_channel() {
            Some(id) => {
                let users = self.chat@.typing_in(id);
                if users.len() == 0 {
                    Seq::empty()
                } else if users.len() > 3 {
                    " typing: "@ + joined_with(users.take(3), ", "@) + "..."@
                } else {
                    " typing: "@ + joined_with(users, ", "@)
                }
            },
            None => Seq::empty(),
        }
    }

    /// What the top bar says of who is typing in the selected channel.
    pub fn typing_indicator(&self) -> (r: String)
        ensures
            r@ == self.typing_text(),
    {
        let id = match self.get_active_channel_id() {
            Some(id) => id,
            None => {
                return String::new();
            },
        };
        let users = match self.chat.typing_users.get(id.as_str()) {
            Some(users) => users,
            None => {
                return String::new();
            },
        };
        if users.len() == 0 {
            assert(texts(users@).len() == 0);
            return String::new();
        }
        let mut first: Vec<String> = Vec::new();
        let mut i: usize = 0;
        while i < users.len() && i < 3
            invariant
                i <= users.len(),
                i <= 3,
                first@.len() == i,
                forall|k: int| 0 <= k < i ==> (#[trigger] first@[k])@ == users@[k]@,
            decreases users.len() - i,
        {
            first.push(users[i].clone());
            i += 1;
        }
        let names = join_with(&first, ", ");
        if users.len() > 3 {
            assert(texts(first@) =~= texts(users@).take(3));
            join3(" typing: ", names.as_str(), "...")
        } else {
            assert(texts(first@) =~= texts(users@));
            join2(" typing: ", names.as_str())
        }
    }
}

} // verus!
