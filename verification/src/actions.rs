//! What the user's actions do to the client, and the background work
//! they start.

use crate::api::is_text_object;
use crate::api::{ApiRequest, HttpMethod, SlackApi, endpoint_url};
use crate::auth::{after_switch, workspace_views};
use crate::commands::{command_of, command_parts, payload_members, process_command, CommandType};
use crate::gateway::bearer_header;
use crate::api::param_views;
use crate::json::{printed_json, Json};
use crate::menu::EditState;
use crate::runner::AgentStatus;
use crate::input::InputState;
use crate::state::{error_summary, AgentPanel, App, ErrorState};
use crate::tasks::{
    opt_task, task_views, AgentDispatch, Task, TaskView, HISTORY_LIMIT, LONG_HISTORY_LIMIT,
};
use crate::text::{join2, opt_text, texts};
use crate::types::{Channel, Message, MessageView, WorkspaceState};
use vstd::prelude::*;

verus! {

/// What a start of the agent needs.
#[derive(Debug)]
pub struct StartRequest {
    pub binary_path: String,
    pub gateway_port: u16,
    /// The stored bearer token, if the session has one.
    pub bearer: Option<String>,
}

impl App {
    /// The user token of the active workspace.
    pub open spec fn active_token(self) -> Option<Seq<char>> {
        if self.active_workspace < self.workspaces@.len() {
            Some(self.workspaces@[self.active_workspace as int].workspace.xoxp_token@)
        } else {
            None
        }
    }

    /// The id of the user of the active workspace.
    pub open spec fn active_user(self) -> Option<Seq<char>> {
        if self.active_workspace < self.workspaces@.len() {
            opt_text(self.workspaces@[self.active_workspace as int].workspace.user_id)
        } else {
            None
        }
    }

    /// The id of the selected channel.
    pub open spec fn active_channel(self) -> Option<Seq<char>> {
        match self.selected_channel {
            Some(i) => if i < self.channels@.len() {
                Some(self.channels@[i as int].id@)
            } else {
                None
            },
            None => None,
        }
    }

    /// The last message of the selected channel.
    pub open spec fn last_message(self) -> Option<MessageView> {
        match self.active_channel() {
            Some(id) => if self.chat@.messages_in(id).len() > 0 {
                Some(self.chat@.messages_in(id).last())
            } else {
                None
            },
            None => None,
        }
    }

    /// The thread that the selected channel last saw a reply in.
    pub open spec fn active_thread(self) -> Option<Seq<char>> {
        match self.active_channel() {
            Some(id) => if self.chat@.active_threads.contains_key(id) {
                Some(self.chat@.active_threads[id])
            } else {
                None
            },
            None => None,
        }
    }

    /// The user token of the active workspace.
    pub fn get_active_token(&self) -> (r: Option<String>)
        ensures
            opt_text(r) == self.active_token(),
    {
        if self.active_workspace < self.workspaces.len() {
            Some(self.workspaces[self.active_workspace].workspace.xoxp_token.clone())
        } else {
            None
        }
    }

    /// The last message of the selected channel.
    pub fn get_last_message(&self) -> (r: Option<&Message>)
        ensures
            match r {
                Some(m) => self.last_message() == Some(m@),
                None => self.last_message() is None,
            },
    {
        match self.get_active_channel_id() {
            Some(id) => match self.chat.messages.get(id.as_str()) {
                Some(queue) => if queue.len() > 0 {
                    let last = &queue[queue.len() - 1];
                    assert(crate::types::message_views(queue@).last() == last@);
                    Some(last)
                } else {
                    None
                },
                None => None,
            },
            None => None,
        }
    }

    /// Whether the last message of the selected channel was written by
    /// the user of the active workspace.
    pub open spec fn owns_last_message(self) -> bool {
        self.last_message() matches Some(m) && self.active_user() == Some(m.user_id)
    }

    /// Whether the last message of the selected channel was written by
    /// the user of the active workspace.
    pub fn user_owns_last_message(&self) -> (r: bool)
        ensures
            r == self.owns_last_message(),
    {
        match self.get_last_message() {
            Some(m) => if self.active_workspace < self.workspaces.len() {
                match &self.workspaces[self.active_workspace].workspace.user_id {
                    Some(user) => *user == m.user_id,
                    None => false,
                }
            } else {
                false
            },
            None => false,
        }
    }

    /// `after` is `self` after what was loaded at the start was taken.
    /// With a session the client holds its workspaces, shows the channels
    /// of the first active one, and forgets earlier failures. Without a
    /// session the wizard opens at its first screen.
    pub open spec fn initialised(
        self,
        session: Option<crate::auth::Session>,
        loaded: Vec<WorkspaceState>,
        after: App,
    ) -> bool {
        match session {
            Some(held) => match crate::auth::active_index(workspace_views(held.workspaces@), 0) {
                Some(i) => if i < loaded@.len() {
                    after == (App {
                        session,
                        workspaces: loaded,
                        active_workspace: i as usize,
                        channels: after.channels,
                        is_loading: false,
                        errors: crate::state::no_error(),
                        ..self
                    }) && after.channels@ == loaded@[i].channels@
                } else {
                    after == (App {
                        session,
                        workspaces: loaded,
                        is_loading: false,
                        errors: crate::state::no_error(),
                        ..self
                    })
                },
                None => after == (App {
                    session,
                    workspaces: loaded,
                    is_loading: false,
                    errors: crate::state::no_error(),
                    ..self
                }),
            },
            None => after.onboarding is Some && after == (App {
                session: None,
                onboarding: after.onboarding,
                is_loading: false,
                ..self
            }) && after.onboarding->0.is_fresh(),
        }
    }

    /// Takes what was loaded at the start. The result says whether the
    /// agent is to be started: with a session, where the settings ask for
    /// it.
    pub fn init(&mut self, session: Option<crate::auth::Session>, loaded: Vec<WorkspaceState>) -> (
        start_agent: bool
    )
        ensures
            old(self).initialised(session, loaded, *final(self)),
            start_agent == (session is Some && old(self).config.zeroclaw.auto_start),
    {
        match session {
            Some(held) => {
                let active = held.active_workspace_index();
                self.session = Some(held);
                self.workspaces = loaded;
                match active {
                    Some(i) => if i < self.workspaces.len() {
                        self.active_workspace = i;
                        self.channels = Channel::duplicate_all(&self.workspaces[i].channels);
                    },
                    None => {},
                }
                self.is_loading = false;
                self.errors.clear_error();
                self.config.zeroclaw.auto_start
            },
            None => {
                self.session = None;
                self.onboarding = Some(crate::onboarding::OnboardingState::new());
                self.is_loading = false;
                false
            },
        }
    }

    /// Begins an automatic start of the agent, where the settings ask for
    /// one: the agent is starting, and the result says what the start
    /// needs, with the bearer token of the session where it has one.
    /// Nothing else changes.
    pub fn start_zeroclaw_auto(&mut self) -> (r: Option<StartRequest>)
        ensures
            match r {
                Some(request) => old(self).config.zeroclaw.auto_start && *final(self) == (App {
                    agent: AgentPanel { status: AgentStatus::Starting, ..old(self).agent },
                    ..*old(self)
                }) && request.binary_path@ == old(self).config.zeroclaw.binary_path@
                    && request.gateway_port == old(self).config.zeroclaw.gateway_port
                    && opt_text(request.bearer) == match old(self).session {
                    Some(held) => opt_text(held.zeroclaw_bearer),
                    None => None,
                },
                None => !old(self).config.zeroclaw.auto_start && *final(self) == *old(self),
            },
    {
        if !self.config.zeroclaw.auto_start {
            return None;
        }
        let bearer = match &self.session {
            Some(held) => crate::types::copy_opt(&held.zeroclaw_bearer),
            None => None,
        };
        self.agent.status = AgentStatus::Starting;
        Some(
            StartRequest {
                binary_path: self.config.zeroclaw.binary_path.clone(),
                gateway_port: self.config.zeroclaw.gateway_port,
                bearer,
            },
        )
    }

    /// Begins a start of the agent on request: the agent is pairing, and
    /// the result says what the start needs. Nothing else changes.
    pub fn start_zeroclaw_pairing(&mut self) -> (r: StartRequest)
        ensures
            *final(self) == (App {
                agent: AgentPanel { status: AgentStatus::Pairing, ..old(self).agent },
                ..*old(self)
            }),
            r.binary_path@ == old(self).config.zeroclaw.binary_path@,
            r.gateway_port == old(self).config.zeroclaw.gateway_port,
            r.bearer is None,
    {
        self.agent.status = AgentStatus::Pairing;
        StartRequest {
            binary_path: self.config.zeroclaw.binary_path.clone(),
            gateway_port: self.config.zeroclaw.gateway_port,
            bearer: None,
        }
    }

    /// `after` is `self` with the workspace at `idx` made the active one:
    /// its channels are shown, none is selected, and its team is the
    /// active one of the session. `store` says whether there is a session
    /// to store. An index out of range changes nothing.
    pub open spec fn switched_to(self, idx: usize, after: App, store: bool) -> bool {
        if idx < self.workspaces@.len() {
            &&& after == (App {
                active_workspace: idx,
                channels: after.channels,
                selected_channel: None,
                scroll_offset: 0,
                session: after.session,
                ..self
            })
            &&& after.channels@ == self.workspaces@[idx as int].channels@
            &&& store == self.session is Some
            &&& match (self.session, after.session) {
                (Some(before), Some(held)) => held.zeroclaw_bearer == before.zeroclaw_bearer
                    && workspace_views(held.workspaces@) == after_switch(
                    workspace_views(before.workspaces@),
                    self.workspaces@[idx as int].workspace.team_id@,
                ),
                (None, None) => true,
                _ => false,
            }
        } else {
            !store && after == self
        }
    }

    /// Makes the workspace at `idx` the active one.
    pub fn switch_workspace(&mut self, idx: usize) -> (store: bool)
        ensures
            old(self).switched_to(idx, *final(self), store),
    {
        if idx >= self.workspaces.len() {
            return false;
        }
        self.active_workspace = idx;
        self.channels = Channel::duplicate_all(&self.workspaces[idx].channels);
        self.selected_channel = None;
        self.scroll_offset = 0;
        let team = self.workspaces[idx].workspace.team_id.clone();
        match &mut self.session {
            Some(held) => {
                held.set_active_workspace(team.as_str());
                true
            },
            None => false,
        }
    }

    /// Takes the outcome of storing the session after a switch of
    /// workspace: a failure is shown, a success forgets the last failure.
    pub fn workspace_saved(&mut self, outcome: Result<(), String>)
        ensures
            match outcome {
                Ok(_) => *final(self) == (App { errors: crate::state::no_error(), ..*old(self) }),
                Err(e) => old(self).shows_error(
                    "Failed to save workspace selection"@,
                    e@,
                    *final(self),
                ),
            },
    {
        match outcome {
            Ok(_) => self.errors.clear_error(),
            Err(e) => self.errors.report_error("Failed to save workspace selection", e.as_str()),
        }
    }

    /// `after` is `self` with the channel at `idx` selected, and `r` asks
    /// for the history of that channel, where the channel and the active
    /// workspace exist.
    pub open spec fn channel_selected(self, idx: usize, after: App, r: Option<Task>) -> bool {
        &&& after == (App { selected_channel: Some(idx), scroll_offset: 0, ..self })
        &&& opt_task(r) == if idx < self.channels@.len() {
            match self.active_token() {
                Some(token) => Some(
                    TaskView::LoadHistory {
                        token,
                        channel_id: self.channels@[idx as int].id@,
                        limit: HISTORY_LIMIT,
                    },
                ),
                None => None,
            }
        } else {
            None
        }
    }

    /// Selects the channel at `idx` and asks for its history.
    pub fn select_channel(&mut self, idx: usize) -> (r: Option<Task>)
        ensures
            old(self).channel_selected(idx, *final(self), r),
    {
        self.selected_channel = Some(idx);
        self.scroll_offset = 0;
        if idx < self.channels.len() {
            match self.get_active_token() {
                Some(token) => Some(
                    Task::LoadHistory {
                        token,
                        channel_id: self.channels[idx].id.clone(),
                        limit: HISTORY_LIMIT,
                    },
                ),
                None => None,
            }
        } else {
            None
        }
    }

    /// The task that loads more of the history of the selected channel.
    pub open spec fn long_history_task(self) -> Option<TaskView> {
        match (self.active_channel(), self.active_token()) {
            (Some(channel_id), Some(token)) => Some(
                TaskView::LoadHistory { token, channel_id, limit: LONG_HISTORY_LIMIT },
            ),
            _ => None,
        }
    }

    /// Asks for more of the history of the selected channel.
    pub fn load_history_for_date(&self) -> (r: Option<Task>)
        ensures
            opt_task(r) == self.long_history_task(),
    {
        match (self.get_active_channel_id(), self.get_active_token()) {
            (Some(channel_id), Some(token)) => Some(
                Task::LoadHistory { token, channel_id, limit: LONG_HISTORY_LIMIT },
            ),
            _ => None,
        }
    }

    /// The task that deletes the last message of the selected channel,
    /// where the user of the active workspace wrote it.
    pub open spec fn delete_task(self) -> Option<TaskView> {
        if self.owns_last_message() {
            match (self.active_channel(), self.active_token(), self.last_message()) {
                (Some(channel_id), Some(token), Some(m)) => Some(
                    TaskView::DeleteMessage { token, channel_id, ts: m.ts },
                ),
                _ => None,
            }
        } else {
            None
        }
    }

    /// Asks for the deletion of the last message of the selected channel,
    /// where the user of the active workspace wrote it.
    pub fn delete_selected_message(&self) -> (r: Option<Task>)
        ensures
            opt_task(r) == self.delete_task(),
    {
        if !self.user_owns_last_message() {
            return None;
        }
        match (self.get_active_channel_id(), self.get_active_token(), self.get_last_message()) {
            (Some(channel_id), Some(token), Some(m)) => Some(
                Task::DeleteMessage { token, channel_id, ts: m.ts.clone() },
            ),
            _ => None,
        }
    }

    /// The task that adds `reaction` to the last message of the selected
    /// channel.
    pub open spec fn reaction_task(self, reaction: Seq<char>) -> Option<TaskView> {
        match (self.active_channel(), self.active_token(), self.last_message()) {
            (Some(channel_id), Some(token), Some(m)) => Some(
                TaskView::AddReaction { token, channel_id, ts: m.ts, reaction },
            ),
            _ => None,
        }
    }

    /// Asks for the reaction `reaction` to the last message of the
    /// selected channel.
    pub fn add_reaction_to_message(&self, reaction: &str) -> (r: Option<Task>)
        ensures
            opt_task(r) == self.reaction_task(reaction@),
    {
        match (self.get_active_channel_id(), self.get_active_token(), self.get_last_message()) {
            (Some(channel_id), Some(token), Some(m)) => Some(
                Task::AddReaction {
                    token,
                    channel_id,
                    ts: m.ts.clone(),
                    reaction: reaction.to_owned(),
                },
            ),
            _ => None,
        }
    }

    /// `after` is `self` with the edit of the last message of the selected
    /// channel begun, where the user of the active workspace wrote it: the
    /// message is remembered and its text stands in the input line. Else
    /// nothing changes.
    pub open spec fn edit_started(self, after: App) -> bool {
        if self.owns_last_message() && self.active_channel() is Some {
            &&& after == (App {
                edit_message: after.edit_message,
                input: InputState { buffer: after.input.buffer, ..self.input },
                ..self
            })
            &&& after.input.buffer@ == self.last_message()->0.text
            &&& after.edit_message matches Some(edit) && edit.channel_id@
                == self.active_channel()->0 && edit.ts@ == self.last_message()->0.ts
                && edit.original_text@ == self.last_message()->0.text
        } else {
            after == self
        }
    }

    /// Begins the edit of the last message of the selected channel.
    pub fn start_edit_message(&mut self)
        ensures
            old(self).edit_started(*final(self)),
    {
        if !self.user_owns_last_message() {
            return ;
        }
        let edit = match (self.get_active_channel_id(), self.get_last_message()) {
            (Some(channel_id), Some(m)) => Some(
                EditState { channel_id, ts: m.ts.clone(), original_text: m.text.clone() },
            ),
            _ => None,
        };
        match edit {
            Some(edit) => {
                self.input.buffer = edit.original_text.clone();
                self.edit_message = Some(edit);
            },
            None => {},
        }
    }

    /// `after` is `self` with the edit ended: `r` asks for the text of the
    /// input line to take the place of the text of the message, and the
    /// input line is empty. Without an edit nothing happens.
    pub open spec fn edit_saved(self, after: App, r: Option<Task>) -> bool {
        match self.edit_message {
            Some(edit) => {
                &&& after == (App { edit_message: None, input: after.input, ..self })
                &&& after.input.is_cleared()
                &&& opt_task(r) == match self.active_token() {
                    Some(token) => Some(
                        TaskView::UpdateMessage {
                            token,
                            channel_id: edit.channel_id@,
                            ts: edit.ts@,
                            text: self.input.buffer@,
                        },
                    ),
                    None => None,
                }
            },
            None => r is None && after == self,
        }
    }

    /// Ends an edit.
    pub fn save_edited_message(&mut self) -> (r: Option<Task>)
        ensures
            old(self).edit_saved(*final(self), r),
    {
        match self.edit_message.take() {
            Some(edit) => {
                let task = match self.get_active_token() {
                    Some(token) => Some(
                        Task::UpdateMessage {
                            token,
                            channel_id: edit.channel_id,
                            ts: edit.ts,
                            text: self.input.buffer.clone(),
                        },
                    ),
                    None => None,
                };
                self.input.clear();
                task
            },
            None => None,
        }
    }

    /// The tasks that load the replies of every message of `channel_id`
    /// that has some, in the order of the messages.
    pub open spec fn thread_tasks(self, channel_id: Seq<char>) -> Seq<TaskView> {
        match self.active_token() {
            Some(token) => reply_tasks(self.chat@.messages_in(channel_id), token, channel_id),
            None => Seq::empty(),
        }
    }

    /// Asks for the replies of every message of `channel_id` that has
    /// some, in the order of the messages.
    pub fn load_thread(&self, channel_id: &str) -> (r: Vec<Task>)
        ensures
            task_views(r@) == self.thread_tasks(channel_id@),
    {
        let mut tasks: Vec<Task> = Vec::new();
        assert(task_views(tasks@) =~= Seq::<TaskView>::empty());
        let token = match self.get_active_token() {
            Some(token) => token,
            None => {
                return tasks;
            },
        };
        let queue = match self.chat.messages.get(channel_id) {
            Some(queue) => queue,
            None => {
                return tasks;
            },
        };
        let ghost all = crate::types::message_views(queue@);
        let mut i: usize = 0;
        assert(all.take(0) =~= Seq::<MessageView>::empty());
        while i < queue.len()
            invariant
                i <= queue.len(),
                all == crate::types::message_views(queue@),
                task_views(tasks@) == reply_tasks(all.take(i as int), token@, channel_id@),
            decreases queue.len() - i,
        {
            assert(all.take(i + 1).drop_last() =~= all.take(i as int));
            assert(all.take(i + 1).last() == queue@[i as int]@);
            let m = &queue[i];
            let has_replies = match m.reply_count {
                Some(n) => n > 0,
                None => false,
            };
            if has_replies {
                let ghost before = task_views(tasks@);
                let task = Task::LoadReplies {
                    token: token.clone(),
                    channel_id: channel_id.to_owned(),
                    thread_ts: m.ts.clone(),
                };
                tasks.push(task);
                assert(task_views(tasks@) =~= before.push(task@));
            }
            i += 1;
        }
        assert(all.take(queue.len() as int) =~= all);
        tasks
    }

    /// `after` is `self` after the slash command `text` for the agent. A
    /// text that is no command does nothing. Without a supervisor, or
    /// with one that has no gateway, the failure is shown: the agent is
    /// not connected. With a gateway that is not paired the command has failed
    /// at once: the failure is shown and nothing is processing. With a
    /// paired gateway the agent is processing, and `r` hands the command
    /// out with the request that submits its payload and with what the
    /// reply needs to be posted.
    pub open spec fn agent_commanded(self, text: Seq<char>, after: App, r: Option<Task>) -> bool {
        match command_parts(text) {
            None => r is None && after == self,
            Some((name, args)) => match self.agent.runner {
                None => r is None && self.shows_error(
                    "Agent command failed"@,
                    "agent not connected"@,
                    after,
                ),
                Some(runner) => match runner.gateway {
                    None => r is None && self.shows_error(
                        "Agent command failed"@,
                        "agent not connected"@,
                        after,
                    ),
                    Some(gateway) => match gateway.bearer {
                        None => r is None && (App {
                            agent: AgentPanel {
                                processing: false,
                                loading_command: None,
                                loading_start_time: None,
                                ..self.agent
                            },
                            ..self
                        }).shows_error(
                            "Agent command failed"@,
                            "Agent command failed: Not paired with gateway"@,
                            after,
                        ),
                        Some(bearer) => {
                            &&& after == (App {
                                agent: AgentPanel { processing: true, ..self.agent },
                                ..self
                            })
                            &&& r matches Some(Task::AgentCommand(dispatch))
                            && dispatch.command@ == text && opt_text(dispatch.channel)
                            == self.active_channel() && opt_text(dispatch.token)
                            == self.active_token() && opt_text(dispatch.thread_ts)
                            == self.active_thread() && dispatch.request.method
                            == HttpMethod::Post && dispatch.request.url@ == gateway.base_url@
                            + "/webhook"@ && param_views(dispatch.request.headers@) == seq![
                            bearer_header(bearer@),
                        ] && exists|payload: Json|
                            is_text_object(
                                payload,
                                payload_members(
                                    command_of(name, args),
                                    agent_channel(self.active_channel()),
                                    agent_user(self.active_user()),
                                ),
                            ) && opt_text(dispatch.request.body) == Some(printed_json(payload))
                        },
                    },
                },
            },
        }
    }

    /// Handles a slash command for the agent.
    pub fn handle_agent_command(&mut self, text: &str) -> (r: Option<Task>)
        ensures
            old(self).agent_commanded(text@, *final(self), r),
    {
        let (name, args) = match process_command(text) {
            Some(parts) => parts,
            None => {
                return None;
            },
        };
        let connected = match &self.agent.runner {
            None => false,
            Some(runner) => runner.get_gateway().is_some(),
        };
        if !connected {
            self.errors.report_error("Agent command failed", "agent not connected");
            return None;
        }
        let command = CommandType::from_command(name.as_str(), &args);
        let channel = self.get_active_channel_id();
        let channel_id = match &channel {
            Some(id) => id.clone(),
            None => String::new(),
        };
        let user_id = if self.active_workspace < self.workspaces.len() {
            match &self.workspaces[self.active_workspace].workspace.user_id {
                Some(user) => user.clone(),
                None => "UNKNOWN_USER".to_owned(),
            }
        } else {
            "UNKNOWN_USER".to_owned()
        };
        let payload = command.to_webhook_payload(channel_id.as_str(), user_id.as_str());
        let request = match &self.agent.runner {
            None => {
                return None;
            },
            Some(runner) => match runner.get_gateway() {
                None => {
                    return None;
                },
                Some(gateway) => gateway.send_to_agent_request(&payload),
            },
        };
        match request {
            Err(e) => {
                let failure = join2("Agent command failed: ", e.message.as_str());
                proof {
                    reveal_strlit("Agent command failed: ");
                    reveal_strlit("Not paired with gateway");
                    reveal_strlit("Agent command failed: Not paired with gateway");
                    assert(failure@ =~= "Agent command failed: Not paired with gateway"@);
                }
                self.agent.finish_command();
                self.errors.report_error("Agent command failed", failure.as_str());
                None
            },
            Ok(request) => {
                self.agent.processing = true;
                let thread_ts = match &channel {
                    Some(id) => match self.chat.active_threads.get(id.as_str()) {
                        Some(ts) => Some(ts.clone()),
                        None => None,
                    },
                    None => None,
                };
                let token = self.get_active_token();
                assert(is_text_object(
                    payload,
                    payload_members(
                        command_of(name@, texts(args@)),
                        agent_channel(old(self).active_channel()),
                        agent_user(old(self).active_user()),
                    ),
                ));
                Some(
                    Task::AgentCommand(
                        AgentDispatch {
                            command: text.to_owned(),
                            request,
                            channel,
                            token,
                            thread_ts,
                        },
                    ),
                )
            },
        }
    }

    /// The task that posts the text of the input line to the selected
    /// channel.
    pub open spec fn post_task(self) -> Option<TaskView> {
        match (self.active_channel(), self.active_token()) {
            (Some(channel_id), Some(token)) => Some(
                TaskView::SendMessage {
                    token,
                    channel_id,
                    text: self.input.buffer@,
                    context: if self.input.mode is Normal {
                        "Failed to send message"@
                    } else {
                        "Failed to send mention"@
                    },
                },
            ),
            _ => None,
        }
    }

    /// `after` is `self` after what stands in the input line was sent. An
    /// empty line does nothing. A message and a mention are posted to the
    /// selected channel; a command goes to the agent. Then the input line
    /// is empty.
    pub open spec fn input_submitted(self, after: App, r: Option<Task>) -> bool {
        if self.input.buffer@.len() == 0 {
            r is None && after == self
        } else if self.input.mode is AgentCommand {
            after.input.is_cleared() && self.agent_commanded(
                self.input.buffer@,
                App { input: self.input, ..after },
                r,
            )
        } else {
            after == (App { input: after.input, ..self }) && after.input.is_cleared()
                && opt_task(r) == self.post_task()
        }
    }

    /// Sends what stands in the input line.
    pub fn handle_input_submit(&mut self) -> (r: Option<Task>)
        ensures
            old(self).input_submitted(*final(self), r),
    {
        let text = self.input.buffer.clone();
        if text.as_str().is_empty() {
            return None;
        }
        let task = match self.input.mode {
            crate::input::InputMode::AgentCommand => self.handle_agent_command(text.as_str()),
            mode => match (self.get_active_channel_id(), self.get_active_token()) {
                (Some(channel_id), Some(token)) => Some(
                    Task::SendMessage {
                        token,
                        channel_id,
                        text,
                        context: match mode {
                            crate::input::InputMode::Normal => "Failed to send message".to_owned(),
                            _ => "Failed to send mention".to_owned(),
                        },
                    },
                ),
                _ => None,
            },
        };
        self.input.clear();
        task
    }
}

/// The channel that a command for the agent names where none is selected.
pub open spec fn agent_channel(active: Option<Seq<char>>) -> Seq<char> {
    match active {
        Some(id) => id,
        None => Seq::empty(),
    }
}

/// The user that a command for the agent names where the workspace knows
/// none.
pub open spec fn agent_user(active: Option<Seq<char>>) -> Seq<char> {
    match active {
        Some(id) => id,
        None => "UNKNOWN_USER"@,
    }
}

/// The tasks that load the replies of the messages among `messages` that
/// have replies, in order.
pub open spec fn reply_tasks(messages: Seq<MessageView>, token: Seq<char>, channel_id: Seq<char>)
    -> Seq<TaskView>
    decreases messages.len(),
{
    if messages.len() == 0 {
        Seq::empty()
    } else {
        let front = reply_tasks(messages.drop_last(), token, channel_id);
        let m = messages.last();
        if m.reply_count matches Some(n) && n > 0 {
            front.push(TaskView::LoadReplies { token, channel_id, thread_ts: m.ts })
        } else {
            front
        }
    }
}

impl AgentDispatch {
    /// The request that posts the reply `response` of the agent: into the
    /// active thread of the channel where it has one, else to the channel.
    /// Without a channel or a token nothing is posted.
    pub fn reply_request(&self, response: &str) -> (r: Option<ApiRequest>)
        ensures
            match (self.channel, self.token) {
                (Some(channel), Some(token)) => r matches Some(request) && request.is_json_post(
                    endpoint_url("chat.postMessage"@),
                    token@,
                    match self.thread_ts {
                        Some(ts) => seq![
                            ("channel"@, channel@),
                            ("text"@, response@),
                            ("thread_ts"@, ts@),
                        ],
                        None => seq![("channel"@, channel@), ("text"@, response@)],
                    },
                ),
                _ => r is None,
            },
    {
        match (&self.channel, &self.token) {
            (Some(channel), Some(token)) => Some(
                match &self.thread_ts {
                    Some(ts) => SlackApi::send_message_to_thread_request(
                        token.as_str(),
                        channel.as_str(),
                        response,
                        ts.as_str(),
                    ),
                    None => SlackApi::send_message_request(
                        token.as_str(),
                        channel.as_str(),
                        response,
                    ),
                },
            ),
            _ => None,
        }
    }
}

} // verus!
