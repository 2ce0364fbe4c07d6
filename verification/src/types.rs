//! The records of the chat service: channels, messages, users, workspaces.

use crate::directory::{shown_name_in, UserDirectory};
use crate::json::Json;
use crate::text::{
    chars_of, join2, find_from, low_u32, opt_text, parse_i64, parse_i64_chars, slice_chars, texts,
    truncate_u32, first_match, lemma_first_match,
};
use vstd::prelude::*;

verus! {

/// A user of the workspace.
#[derive(Debug)]
pub struct User {
    pub id: String,
    pub name: String,
    pub display_name: String,
    pub real_name: String,
    pub email: Option<String>,
}

pub struct UserView {
    pub id: Seq<char>,
    pub name: Seq<char>,
    pub display_name: Seq<char>,
    pub real_name: Seq<char>,
    pub email: Option<Seq<char>>,
}

impl UserView {
    /// The name under which the user is shown: the display name, else the
    /// real name, else the user name.
    pub open spec fn shown_name(self) -> Seq<char> {
        if self.display_name.len() > 0 {
            self.display_name
        } else if self.real_name.len() > 0 {
            self.real_name
        } else {
            self.name
        }
    }
}

impl View for User {
    type V = UserView;

    open spec fn view(&self) -> UserView {
        UserView {
            id: self.id@,
            name: self.name@,
            display_name: self.display_name@,
            real_name: self.real_name@,
            email: opt_text(self.email),
        }
    }
}

impl User {
    /// The name under which the user is shown.
    pub fn display_name(&self) -> (r: String)
        ensures
            r@ == self@.shown_name(),
    {
        if !self.display_name.as_str().is_empty() {
            self.display_name.clone()
        } else if !self.real_name.as_str().is_empty() {
            self.real_name.clone()
        } else {
            self.name.clone()
        }
    }
}

/// A channel, group or direct-message conversation.
#[derive(Debug)]
pub struct Channel {
    pub id: String,
    pub name: String,
    pub is_dm: bool,
    pub is_group: bool,
    pub is_im: bool,
    pub unread_count: u32,
    pub purpose: Option<String>,
    pub topic: Option<String>,
    pub user: Option<String>,
}

pub struct ChannelView {
    pub id: Seq<char>,
    pub name: Seq<char>,
    pub is_dm: bool,
    pub is_group: bool,
    pub is_im: bool,
    pub unread_count: u32,
    pub purpose: Option<Seq<char>>,
    pub topic: Option<Seq<char>>,
    pub user: Option<Seq<char>>,
}

impl View for Channel {
    type V = ChannelView;

    open spec fn view(&self) -> ChannelView {
        ChannelView {
            id: self.id@,
            name: self.name@,
            is_dm: self.is_dm,
            is_group: self.is_group,
            is_im: self.is_im,
            unread_count: self.unread_count,
            purpose: opt_text(self.purpose),
            topic: opt_text(self.topic),
            user: opt_text(self.user),
        }
    }
}

/// A copy of an optional string.
pub fn copy_opt(s: &Option<String>) -> (r: Option<String>)
    ensures
        r == *s,
{
    match s {
        Some(s) => Some(s.clone()),
        None => None,
    }
}

impl Channel {
    /// A copy of the channel.
    pub fn duplicate(&self) -> (r: Channel)
        ensures
            r == *self,
    {
        Channel {
            id: self.id.clone(),
            name: self.name.clone(),
            is_dm: self.is_dm,
            is_group: self.is_group,
            is_im: self.is_im,
            unread_count: self.unread_count,
            purpose: copy_opt(&self.purpose),
            topic: copy_opt(&self.topic),
            user: copy_opt(&self.user),
        }
    }

    /// Copies of the channels `channels`.
    pub fn duplicate_all(channels: &Vec<Channel>) -> (r: Vec<Channel>)
        ensures
            r@ == channels@,
    {
        let mut r: Vec<Channel> = Vec::new();
        let mut i: usize = 0;
        while i < channels.len()
            invariant
                i <= channels.len(),
                r@ == channels@.take(i as int),
            decreases channels.len() - i,
        {
            r.push(channels[i].duplicate());
            assert(r@ =~= channels@.take(i + 1));
            i += 1;
        }
        assert(channels@.take(channels.len() as int) =~= channels@);
        r
    }

    /// The name of the channel as lists show it: `@ ` before the name of a
    /// direct-message conversation, `# ` before any other.
    pub fn display_name(&self) -> (r: String)
        ensures
            r@ == if self.is_dm {
                "@ "@ + self.name@
            } else {
                "# "@ + self.name@
            },
    {
        if self.is_dm {
            join2("@ ", self.name.as_str())
        } else {
            join2("# ", self.name.as_str())
        }
    }
}

/// A reaction to a message.
#[derive(Debug)]
pub struct Reaction {
    pub name: String,
    pub count: u32,
    pub users: Vec<String>,
}

pub struct ReactionView {
    pub name: Seq<char>,
    pub count: u32,
    pub users: Seq<Seq<char>>,
}

impl View for Reaction {
    type V = ReactionView;

    open spec fn view(&self) -> ReactionView {
        ReactionView { name: self.name@, count: self.count, users: texts(self.users@) }
    }
}

/// A file attached to a message.
#[derive(Debug)]
pub struct File {
    pub id: String,
    pub name: String,
    pub mimetype: Option<String>,
    pub url_private: Option<String>,
    pub url_private_download: Option<String>,
    pub size: u32,
}

pub struct FileView {
    pub id: Seq<char>,
    pub name: Seq<char>,
    pub mimetype: Option<Seq<char>>,
    pub url_private: Option<Seq<char>>,
    pub url_private_download: Option<Seq<char>>,
    pub size: u32,
}

impl View for File {
    type V = FileView;

    open spec fn view(&self) -> FileView {
        FileView {
            id: self.id@,
            name: self.name@,
            mimetype: opt_text(self.mimetype),
            url_private: opt_text(self.url_private),
            url_private_download: opt_text(self.url_private_download),
            size: self.size,
        }
    }
}

/// What the service reports of an uploaded file.
#[derive(Debug)]
pub struct FileInfo {
    pub id: String,
    pub name: String,
    pub mimetype: Option<String>,
    pub url_private: Option<String>,
    pub url_private_download: Option<String>,
    pub size: u32,
    pub title: Option<String>,
    pub filetype: Option<String>,
}

pub struct FileInfoView {
    pub id: Seq<char>,
    pub name: Seq<char>,
    pub mimetype: Option<Seq<char>>,
    pub url_private: Option<Seq<char>>,
    pub url_private_download: Option<Seq<char>>,
    pub size: u32,
    pub title: Option<Seq<char>>,
    pub filetype: Option<Seq<char>>,
}

impl View for FileInfo {
    type V = FileInfoView;

    open spec fn view(&self) -> FileInfoView {
        FileInfoView {
            id: self.id@,
            name: self.name@,
            mimetype: opt_text(self.mimetype),
            url_private: opt_text(self.url_private),
            url_private_download: opt_text(self.url_private_download),
            size: self.size,
            title: opt_text(self.title),
            filetype: opt_text(self.filetype),
        }
    }
}

/// A message. Its `ts` is the dotted timestamp id that orders the messages
/// of a channel; `timestamp` is the whole seconds of it since the epoch.
#[derive(Debug)]
pub struct Message {
    pub ts: String,
    pub user_id: String,
    pub username: String,
    pub text: String,
    pub thread_ts: Option<String>,
    pub timestamp: i64,
    pub is_agent: bool,
    pub reactions: Vec<Reaction>,
    pub is_edited: bool,
    pub is_deleted: bool,
    pub files: Vec<File>,
    pub reply_count: Option<u32>,
    pub last_read: Option<String>,
}

pub struct MessageView {
    pub ts: Seq<char>,
    pub user_id: Seq<char>,
    pub username: Seq<char>,
    pub text: Seq<char>,
    pub thread_ts: Option<Seq<char>>,
    pub timestamp: i64,
    pub is_agent: bool,
    pub reactions: Seq<ReactionView>,
    pub is_edited: bool,
    pub is_deleted: bool,
    pub files: Seq<FileView>,
    pub reply_count: Option<u32>,
    pub last_read: Option<Seq<char>>,
}

/// The views of a sequence of reactions.
pub open spec fn reaction_views(v: Seq<Reaction>) -> Seq<ReactionView> {
    v.map_values(|r: Reaction| r@)
}

/// The views of a sequence of files.
pub open spec fn file_views(v: Seq<File>) -> Seq<FileView> {
    v.map_values(|f: File| f@)
}

/// The views of a sequence of messages.
pub open spec fn message_views(v: Seq<Message>) -> Seq<MessageView> {
    v.map_values(|m: Message| m@)
}

impl View for Message {
    type V = MessageView;

    open spec fn view(&self) -> MessageView {
        MessageView {
            ts: self.ts@,
            user_id: self.user_id@,
            username: self.username@,
            text: self.text@,
            thread_ts: opt_text(self.thread_ts),
            timestamp: self.timestamp,
            is_agent: self.is_agent,
            reactions: reaction_views(self.reactions@),
            is_edited: self.is_edited,
            is_deleted: self.is_deleted,
            files: file_views(self.files@),
            reply_count: self.reply_count,
            last_read: opt_text(self.last_read),
        }
    }
}

/// The first second that the calendar holds: the start of the year
/// -262143.
pub const MIN_TIMESTAMP: i64 = -8_334_601_228_800;

/// The last second that the calendar holds: the end of the year 262142.
pub const MAX_TIMESTAMP: i64 = 8_210_266_876_799;

/// The calendar holds the time `secs` whole seconds after the epoch.
pub open spec fn timestamp_in_range(secs: i64) -> bool {
    MIN_TIMESTAMP <= secs <= MAX_TIMESTAMP
}

/// Asks `chrono::DateTime::from_timestamp` whether it can represent `secs`
/// whole seconds since the epoch. It can where the day of that second
/// lies in a year from -262143 to 262142, which are the seconds from
/// `MIN_TIMESTAMP` to `MAX_TIMESTAMP`.
#[verifier::external_body]
fn chrono_accepts(secs: i64) -> (r: bool)
    ensures
        r == timestamp_in_range(secs),
{
    chrono::DateTime::from_timestamp(secs, 0).is_some()
}

/// The part of `ts` before its first dot; all of it where it has none.
pub open spec fn before_dot(ts: Seq<char>) -> Seq<char> {
    match first_match(ts, seq!['.'], 0) {
        Some(i) => ts.take(i),
        None => ts,
    }
}

/// The whole seconds of the timestamp id `ts`: the number before its first
/// dot, where that is a signed 64-bit number that the calendar can hold.
pub open spec fn epoch_seconds(ts: Seq<char>) -> Option<i64> {
    match parse_i64(before_dot(ts)) {
        Some(secs) => if timestamp_in_range(secs) {
            Some(secs)
        } else {
            None
        },
        None => None,
    }
}

/// Reads the whole seconds of a timestamp id.
pub fn parse_epoch_seconds(ts: &str) -> (r: Option<i64>)
    ensures
        r == epoch_seconds(ts@),
{
    let chars = chars_of(ts);
    let dot: Vec<char> = vec!['.'];
    assert(dot@ =~= seq!['.']);
    proof {
        lemma_first_match(chars@, dot@, 0);
    }
    let head = match find_from(&chars, &dot, 0) {
        Some(i) => {
            assert(chars@.take(i as int) =~= chars@.subrange(0, i as int));
            slice_chars(&chars, 0, i)
        },
        None => chars,
    };
    match parse_i64_chars(&head) {
        Some(secs) => if chrono_accepts(secs) {
            Some(secs)
        } else {
            None
        },
        None => None,
    }
}


/// The strings among `items`, in order; items that are no strings are
/// left out.
pub open spec fn strings_of(items: Seq<Json>) -> Seq<Seq<char>>
    decreases items.len(),
{
    if items.len() == 0 {
        Seq::empty()
    } else {
        let front = strings_of(items.drop_last());
        match items.last().text() {
            Some(s) => front.push(s),
            None => front,
        }
    }
}

/// The users of a reaction document: the strings of its `users` array, and
/// none where it has no such array.
pub open spec fn reaction_users(doc: Json) -> Seq<Seq<char>> {
    match doc.items_field("users"@) {
        Some(items) => strings_of(items),
        None => Seq::empty(),
    }
}

/// The reaction that `doc` describes. It needs a string `name` and a
/// `count` that is an unsigned number.
pub open spec fn reaction_of(doc: Json) -> Option<ReactionView> {
    match (doc.text_field("name"@), doc.unsigned_field("count"@)) {
        (Some(name), Some(count)) => Some(
            ReactionView { name, count: low_u32(count), users: reaction_users(doc) },
        ),
        _ => None,
    }
}

/// The reactions that `items` describe, in order; items that describe none
/// are left out.
pub open spec fn reactions_of(items: Seq<Json>) -> Seq<ReactionView>
    decreases items.len(),
{
    if items.len() == 0 {
        Seq::empty()
    } else {
        let front = reactions_of(items.drop_last());
        match reaction_of(items.last()) {
            Some(r) => front.push(r),
            None => front,
        }
    }
}

/// The file that `doc` describes. It needs a string `id`, a string `name`
/// and a `size` that is an unsigned number.
pub open spec fn file_of(doc: Json) -> Option<FileView> {
    match (doc.text_field("id"@), doc.text_field("name"@), doc.unsigned_field("size"@)) {
        (Some(id), Some(name), Some(size)) => Some(
            FileView {
                id,
                name,
                mimetype: doc.text_field("mimetype"@),
                url_private: doc.text_field("url_private"@),
                url_private_download: doc.text_field("url_private_download"@),
                size: low_u32(size),
            },
        ),
        _ => None,
    }
}

/// The files that `items` describe, in order; items that describe none are
/// left out.
pub open spec fn files_of(items: Seq<Json>) -> Seq<FileView>
    decreases items.len(),
{
    if items.len() == 0 {
        Seq::empty()
    } else {
        let front = files_of(items.drop_last());
        match file_of(items.last()) {
            Some(f) => front.push(f),
            None => front,
        }
    }
}

/// The reactions of a message document.
pub open spec fn message_reactions(doc: Json) -> Seq<ReactionView> {
    match doc.items_field("reactions"@) {
        Some(items) => reactions_of(items),
        None => Seq::empty(),
    }
}

/// The files of a message document.
pub open spec fn message_files(doc: Json) -> Seq<FileView> {
    match doc.items_field("files"@) {
        Some(items) => files_of(items),
        None => Seq::empty(),
    }
}

/// A message document counts as deleted where it has a member `deleted_at`
/// or its member `is_deleted` is `true`.
pub open spec fn message_deleted(doc: Json) -> bool {
    doc.field("deleted_at"@) is Some || doc.bool_field("is_deleted"@) == Some(true)
}

/// The reply count of a message document.
pub open spec fn message_reply_count(doc: Json) -> Option<u32> {
    match doc.unsigned_field("reply_count"@) {
        Some(n) => Some(low_u32(n)),
        None => None,
    }
}

/// The message that `doc` describes, with the author's name resolved
/// through `directory`. The document needs the strings `ts`, `user` and
/// `text`, and the seconds of `ts` must be a time that the calendar holds.
pub open spec fn message_of(doc: Json, directory: Map<Seq<char>, UserView>) -> Option<
    MessageView,
> {
    match (doc.text_field("ts"@), doc.text_field("user"@), doc.text_field("text"@)) {
        (Some(ts), Some(user_id), Some(text)) => match epoch_seconds(ts) {
            Some(timestamp) => Some(
                MessageView {
                    ts,
                    user_id,
                    username: shown_name_in(directory, user_id),
                    text,
                    thread_ts: doc.text_field("thread_ts"@),
                    timestamp,
                    is_agent: false,
                    reactions: message_reactions(doc),
                    is_edited: doc.field("edited"@) is Some,
                    is_deleted: message_deleted(doc),
                    files: message_files(doc),
                    reply_count: message_reply_count(doc),
                    last_read: doc.text_field("last_read"@),
                },
            ),
            None => None,
        },
        _ => None,
    }
}

/// The strings among `items`.
pub fn collect_strings(items: &Vec<Json>) -> (out: Vec<String>)
    ensures
        texts(out@) == strings_of(items@),
{
    let mut out: Vec<String> = Vec::new();
    let mut i: usize = 0;
    assert(items@.take(0) =~= Seq::<Json>::empty());
    assert(texts(out@) =~= Seq::<Seq<char>>::empty());
    while i < items.len()
        invariant
            i <= items.len(),
            texts(out@) == strings_of(items@.take(i as int)),
        decreases items.len() - i,
    {
        assert(items@.take(i + 1).drop_last() =~= items@.take(i as int));
        assert(items@.take(i + 1).last() == items@[i as int]);
        match items[i].as_str() {
            Some(s) => {
                let ghost before = texts(out@);
                let owned = s.to_owned();
                out.push(owned);
                assert(texts(out@) =~= before.push(s@));
            },
            None => {},
        }
        i += 1;
    }
    assert(items@.take(items.len() as int) =~= items@);
    out
}

impl Reaction {
    /// Reads a reaction from its document.
    pub fn from_slack_api(doc: &Json) -> (r: Option<Reaction>)
        ensures
            match r {
                Some(reaction) => reaction_of(*doc) == Some(reaction@),
                None => reaction_of(*doc) is None,
            },
    {
        let name = match doc.get_string("name") {
            Some(name) => name,
            None => {
                return None;
            },
        };
        let count = match doc.get_u64("count") {
            Some(count) => truncate_u32(count),
            None => {
                return None;
            },
        };
        let users = match doc.get_array("users") {
            Some(items) => collect_strings(items),
            None => {
                let none: Vec<String> = Vec::new();
                assert(texts(none@) =~= Seq::<Seq<char>>::empty());
                none
            },
        };
        Some(Reaction { name, count, users })
    }

    /// Reads the reactions that `items` describe.
    pub fn list_from_slack_api(items: &Vec<Json>) -> (out: Vec<Reaction>)
        ensures
            reaction_views(out@) == reactions_of(items@),
    {
        let mut out: Vec<Reaction> = Vec::new();
        let mut i: usize = 0;
        assert(items@.take(0) =~= Seq::<Json>::empty());
        assert(reaction_views(out@) =~= Seq::<ReactionView>::empty());
        while i < items.len()
            invariant
                i <= items.len(),
                reaction_views(out@) == reactions_of(items@.take(i as int)),
            decreases items.len() - i,
        {
            assert(items@.take(i + 1).drop_last() =~= items@.take(i as int));
            assert(items@.take(i + 1).last() == items@[i as int]);
            match Reaction::from_slack_api(&items[i]) {
                Some(reaction) => {
                    let ghost before = reaction_views(out@);
                    out.push(reaction);
                    assert(reaction_views(out@) =~= before.push(reaction@));
                },
                None => {},
            }
            i += 1;
        }
        assert(items@.take(items.len() as int) =~= items@);
        out
    }
}

impl File {
    /// Reads an attached file from its document.
    pub fn from_slack_api(doc: &Json) -> (r: Option<File>)
        ensures
            match r {
                Some(file) => file_of(*doc) == Some(file@),
                None => file_of(*doc) is None,
            },
    {
        let id = match doc.get_string("id") {
            Some(id) => id,
            None => {
                return None;
            },
        };
        let name = match doc.get_string("name") {
            Some(name) => name,
            None => {
                return None;
            },
        };
        let size = match doc.get_u64("size") {
            Some(size) => truncate_u32(size),
            None => {
                return None;
            },
        };
        Some(
            File {
                id,
                name,
                mimetype: doc.get_string("mimetype"),
                url_private: doc.get_string("url_private"),
                url_private_download: doc.get_string("url_private_download"),
                size,
            },
        )
    }

    /// Reads the files that `items` describe.
    pub fn list_from_slack_api(items: &Vec<Json>) -> (out: Vec<File>)
        ensures
            file_views(out@) == files_of(items@),
    {
        let mut out: Vec<File> = Vec::new();
        let mut i: usize = 0;
        assert(items@.take(0) =~= Seq::<Json>::empty());
        assert(file_views(out@) =~= Seq::<FileView>::empty());
        while i < items.len()
            invariant
                i <= items.len(),
                file_views(out@) == files_of(items@.take(i as int)),
            decreases items.len() - i,
        {
            assert(items@.take(i + 1).drop_last() =~= items@.take(i as int));
            assert(items@.take(i + 1).last() == items@[i as int]);
            match File::from_slack_api(&items[i]) {
                Some(file) => {
                    let ghost before = file_views(out@);
                    out.push(file);
                    assert(file_views(out@) =~= before.push(file@));
                },
                None => {},
            }
            i += 1;
        }
        assert(items@.take(items.len() as int) =~= items@);
        out
    }
}

impl Message {
    /// Reads a message from its document and resolves the author's name
    /// through `users`. `None` where the document lacks one of the strings
    /// `ts`, `user` and `text`, or its `ts` does not start with seconds
    /// that the calendar holds.
    pub fn from_slack_api(doc: &Json, users: &UserDirectory) -> (r: Option<Message>)
        ensures
            match r {
                Some(message) => message_of(*doc, users@) == Some(message@),
                None => message_of(*doc, users@) is None,
            },
    {
        let ts = match doc.get_string("ts") {
            Some(ts) => ts,
            None => {
                return None;
            },
        };
        let user_id = match doc.get_string("user") {
            Some(user_id) => user_id,
            None => {
                return None;
            },
        };
        let username = users.resolve_username(user_id.as_str());
        let text = match doc.get_string("text") {
            Some(text) => text,
            None => {
                return None;
            },
        };
        let thread_ts = doc.get_string("thread_ts");
        let timestamp = match parse_epoch_seconds(ts.as_str()) {
            Some(timestamp) => timestamp,
            None => {
                return None;
            },
        };
        let reactions = match doc.get_array("reactions") {
            Some(items) => Reaction::list_from_slack_api(items),
            None => {
                let none: Vec<Reaction> = Vec::new();
                assert(reaction_views(none@) =~= Seq::<ReactionView>::empty());
                none
            },
        };
        let is_edited = doc.get("edited").is_some();
        let is_deleted = doc.get("deleted_at").is_some() || match doc.get_bool("is_deleted") {
            Some(flag) => flag,
            None => false,
        };
        let files = match doc.get_array("files") {
            Some(items) => File::list_from_slack_api(items),
            None => {
                let none: Vec<File> = Vec::new();
                assert(file_views(none@) =~= Seq::<FileView>::empty());
                none
            },
        };
        let reply_count = match doc.get_u64("reply_count") {
            Some(n) => Some(truncate_u32(n)),
            None => None,
        };
        let last_read = doc.get_string("last_read");
        Some(
            Message {
                ts,
                user_id,
                username,
                text,
                thread_ts,
                timestamp,
                is_agent: false,
                reactions,
                is_edited,
                is_deleted,
                files,
                reply_count,
                last_read,
            },
        )
    }
}

/// The replies of one thread of a channel.
#[derive(Debug)]
pub struct Thread {
    pub parent_ts: String,
    pub channel_id: String,
    pub replies: Vec<Message>,
    pub is_collapsed: bool,
}

impl Thread {
    /// The expanded thread under `parent_ts` in `channel_id`, without
    /// replies yet.
    pub fn new(parent_ts: &str, channel_id: &str) -> (r: Thread)
        ensures
            r.parent_ts@ == parent_ts@,
            r.channel_id@ == channel_id@,
            r.replies@.len() == 0,
            !r.is_collapsed,
    {
        Thread {
            parent_ts: parent_ts.to_owned(),
            channel_id: channel_id.to_owned(),
            replies: Vec::new(),
            is_collapsed: false,
        }
    }

    /// Collapses an expanded thread and expands a collapsed one.
    pub fn toggle_collapse(&mut self)
        ensures
            final(self).is_collapsed == !old(self).is_collapsed,
            final(self).parent_ts == old(self).parent_ts,
            final(self).channel_id == old(self).channel_id,
            final(self).replies == old(self).replies,
    {
        self.is_collapsed = !self.is_collapsed;
    }
}

/// One connected team and its credentials.
#[derive(Debug)]
pub struct Workspace {
    pub team_id: String,
    pub team_name: String,
    pub xoxp_token: String,
    pub xapp_token: String,
    pub user_id: Option<String>,
    pub active: bool,
}

pub struct WorkspaceView {
    pub team_id: Seq<char>,
    pub team_name: Seq<char>,
    pub xoxp_token: Seq<char>,
    pub xapp_token: Seq<char>,
    pub user_id: Option<Seq<char>>,
    pub active: bool,
}

impl View for Workspace {
    type V = WorkspaceView;

    open spec fn view(&self) -> WorkspaceView {
        WorkspaceView {
            team_id: self.team_id@,
            team_name: self.team_name@,
            xoxp_token: self.xoxp_token@,
            xapp_token: self.xapp_token@,
            user_id: opt_text(self.user_id),
            active: self.active,
        }
    }
}

/// What the client holds of one workspace while it runs.
#[derive(Debug)]
pub struct WorkspaceState {
    pub workspace: Workspace,
    pub channels: Vec<Channel>,
    pub active_channel: Option<String>,
    pub users: UserDirectory,
}

impl WorkspaceState {
    /// The state of a workspace before anything was loaded.
    pub fn new(workspace: Workspace) -> (r: WorkspaceState)
        ensures
            r.workspace == workspace,
            r.channels@.len() == 0,
            r.active_channel is None,
            r.users@ == Map::<Seq<char>, UserView>::empty(),
    {
        WorkspaceState {
            workspace,
            channels: Vec::new(),
            active_channel: None,
            users: UserDirectory::new(),
        }
    }
}

} // verus!
