//! The background work that the client hands out, and the results that
//! come back from it.
//!
//! The presentation loop never waits for the network. It hands out a
//! task; whoever runs the task turns its outcome into one result with the
//! functions here and queues it.

use crate::auth::{granted_workspace, OAuthResponse};
use crate::error::classified;
use crate::gateway::{GatewayRequest, GatewayRequestView};
use crate::retry::CallError;
use crate::runner::AgentRunner;
use crate::state::{actionable_error, AppAsyncEvent};
use crate::text::{join2, opt_text};
use crate::types::Message;
use vstd::prelude::*;

verus! {

/// How many messages a selected channel loads.
pub const HISTORY_LIMIT: u32 = 50;

/// How many messages a request for older history loads.
pub const LONG_HISTORY_LIMIT: u32 = 100;

/// A command that is on its way to the agent.
#[derive(Debug)]
pub struct AgentDispatch {
    /// The text of the command as the user typed it.
    pub command: String,
    /// The request that submits the command to the gateway.
    pub request: GatewayRequest,
    /// The channel that the reply is posted to, if one is selected.
    pub channel: Option<String>,
    /// The token that the reply is posted with.
    pub token: Option<String>,
    /// The thread that the reply is posted into, if the channel has an
    /// active one.
    pub thread_ts: Option<String>,
}

/// A unit of background work.
#[derive(Debug)]
pub enum Task {
    /// Load the latest `limit` messages of a channel.
    LoadHistory { token: String, channel_id: String, limit: u32 },
    /// Load the replies of a thread.
    LoadReplies { token: String, channel_id: String, thread_ts: String },
    /// Post a message; `context` names the failure, should it fail.
    SendMessage { token: String, channel_id: String, text: String, context: String },
    /// Replace the text of a message.
    UpdateMessage { token: String, channel_id: String, ts: String, text: String },
    /// Delete a message.
    DeleteMessage { token: String, channel_id: String, ts: String },
    /// Add a reaction to a message.
    AddReaction { token: String, channel_id: String, ts: String, reaction: String },
    /// Submit a command to the agent and post its reply.
    AgentCommand(AgentDispatch),
}

pub enum TaskView {
    LoadHistory { token: Seq<char>, channel_id: Seq<char>, limit: u32 },
    LoadReplies { token: Seq<char>, channel_id: Seq<char>, thread_ts: Seq<char> },
    SendMessage { token: Seq<char>, channel_id: Seq<char>, text: Seq<char>, context: Seq<char> },
    UpdateMessage { token: Seq<char>, channel_id: Seq<char>, ts: Seq<char>, text: Seq<char> },
    DeleteMessage { token: Seq<char>, channel_id: Seq<char>, ts: Seq<char> },
    AddReaction { token: Seq<char>, channel_id: Seq<char>, ts: Seq<char>, reaction: Seq<char> },
    AgentCommand {
        command: Seq<char>,
        request: GatewayRequestView,
        channel: Option<Seq<char>>,
        reply_token: Option<Seq<char>>,
        reply_thread: Option<Seq<char>>,
    },
}

impl View for Task {
    type V = TaskView;

    open spec fn view(&self) -> TaskView {
        match self {
            Task::LoadHistory { token, channel_id, limit } => TaskView::LoadHistory {
                token: token@,
                channel_id: channel_id@,
                limit: *limit,
            },
            Task::LoadReplies { token, channel_id, thread_ts } => TaskView::LoadReplies {
                token: token@,
                channel_id: channel_id@,
                thread_ts: thread_ts@,
            },
            Task::SendMessage { token, channel_id, text, context } => TaskView::SendMessage {
                token: token@,
                channel_id: channel_id@,
                text: text@,
                context: context@,
            },
            Task::UpdateMessage { token, channel_id, ts, text } => TaskView::UpdateMessage {
                token: token@,
                channel_id: channel_id@,
                ts: ts@,
                text: text@,
            },
            Task::DeleteMessage { token, channel_id, ts } => TaskView::DeleteMessage {
                token: token@,
                channel_id: channel_id@,
                ts: ts@,
            },
            Task::AddReaction { token, channel_id, ts, reaction } => TaskView::AddReaction {
                token: token@,
                channel_id: channel_id@,
                ts: ts@,
                reaction: reaction@,
            },
            Task::AgentCommand(dispatch) => TaskView::AgentCommand {
                command: dispatch.command@,
                request: dispatch.request@,
                channel: opt_text(dispatch.channel),
                reply_token: opt_text(dispatch.token),
                reply_thread: opt_text(dispatch.thread_ts),
            },
        }
    }
}

/// The views of optional tasks.
pub open spec fn opt_task(t: Option<Task>) -> Option<TaskView> {
    match t {
        Some(t) => Some(t@),
        None => None,
    }
}

/// The views of a sequence of tasks.
pub open spec fn task_views(v: Seq<Task>) -> Seq<TaskView> {
    v.map_values(|t: Task| t@)
}

/// The context that names the failure of a task that only reports
/// success or failure.
pub open spec fn failure_context(task: TaskView) -> Option<Seq<char>> {
    match task {
        TaskView::SendMessage { context, .. } => Some(context),
        TaskView::UpdateMessage { .. } => Some("Failed to update message"@),
        TaskView::DeleteMessage { .. } => Some("Failed to delete message"@),
        TaskView::AddReaction { .. } => Some("Failed to add reaction"@),
        _ => None,
    }
}

/// The message of a failed call, if it failed.
pub open spec fn failure_of<T>(outcome: Result<T, CallError>) -> Option<Seq<char>> {
    match outcome {
        Ok(_) => None,
        Err(e) => Some(e.message@),
    }
}

/// The result of a call that only reports success or failure.
pub fn send_result_event(context: String, outcome: Result<(), CallError>) -> (r: AppAsyncEvent)
    ensures
        r matches AppAsyncEvent::SlackSendResult { context: c, error } && c == context
            && opt_text(error) == failure_of(outcome),
{
    AppAsyncEvent::SlackSendResult {
        context,
        error: match outcome {
            Ok(_) => None,
            Err(e) => Some(e.message),
        },
    }
}

/// The result of loading the history of a channel: the messages, or no
/// messages and the failure.
pub fn history_loaded_event(channel_id: String, outcome: Result<Vec<Message>, CallError>) -> (r:
    AppAsyncEvent)
    ensures
        r matches AppAsyncEvent::ChannelHistoryLoaded { channel_id: c, messages, error } && c
            == channel_id && opt_text(error) == failure_of(outcome) && match outcome {
            Ok(loaded) => messages == loaded,
            Err(_) => messages@.len() == 0,
        },
{
    match outcome {
        Ok(messages) => AppAsyncEvent::ChannelHistoryLoaded { channel_id, messages, error: None },
        Err(e) => AppAsyncEvent::ChannelHistoryLoaded {
            channel_id,
            messages: Vec::new(),
            error: Some(e.message),
        },
    }
}

/// The result of loading the replies of a thread: the replies, or no
/// replies and the failure.
pub fn replies_loaded_event(
    channel_id: String,
    parent_ts: String,
    outcome: Result<Vec<Message>, CallError>,
) -> (r: AppAsyncEvent)
    ensures
        r matches AppAsyncEvent::ThreadRepliesLoaded { channel_id: c, parent_ts: p, replies, error }
            && c == channel_id && p == parent_ts && opt_text(error) == failure_of(outcome)
            && match outcome {
            Ok(loaded) => replies == loaded,
            Err(_) => replies@.len() == 0,
        },
{
    match outcome {
        Ok(replies) => AppAsyncEvent::ThreadRepliesLoaded {
            channel_id,
            parent_ts,
            replies,
            error: None,
        },
        Err(e) => AppAsyncEvent::ThreadRepliesLoaded {
            channel_id,
            parent_ts,
            replies: Vec::new(),
            error: Some(e.message),
        },
    }
}

/// The view of an optional workspace.
pub open spec fn workspace_view(w: Option<crate::types::Workspace>) -> Option<
    crate::types::WorkspaceView,
> {
    match w {
        Some(w) => Some(w@),
        None => None,
    }
}

/// The result of an OAuth exchange: the workspace that it connects, or
/// what the user is told to do about the failure.
pub fn oauth_completed_event(outcome: Result<OAuthResponse, CallError>) -> (r: AppAsyncEvent)
    ensures
        r matches AppAsyncEvent::OAuthCompleted { workspace, error } && match outcome {
            Ok(grant) => error is None && workspace_view(workspace) == Some(
                granted_workspace(grant@),
            ),
            Err(e) => workspace is None && opt_text(error) == Some(
                classified(e.message@, e.transport is Some).advice(),
            ),
        },
{
    match outcome {
        Ok(grant) => AppAsyncEvent::OAuthCompleted {
            workspace: Some(grant.into_workspace()),
            error: None,
        },
        Err(e) => AppAsyncEvent::OAuthCompleted {
            workspace: None,
            error: Some(actionable_error(&e)),
        },
    }
}

/// The result of a reply of the agent that could not be posted.
pub fn reply_not_posted_event(command: String, failure: &CallError) -> (r: AppAsyncEvent)
    ensures
        r matches AppAsyncEvent::AgentCommandFinished { command: c, response, error } && c
            == command && response is None && opt_text(error) == Some(
            "Failed to post agent response: "@ + failure.message@,
        ),
{
    AppAsyncEvent::AgentCommandFinished {
        command,
        response: None,
        error: Some(join2("Failed to post agent response: ", failure.message.as_str())),
    }
}

/// A step of a start of the agent.
#[derive(Clone, Copy, Debug, PartialEq, Eq)]
pub enum StartStage {
    /// The helper binary is probed.
    CheckingBinary,
    /// The helper is started with the stored bearer token.
    UsingBearer,
    /// The helper is started and paired.
    Pairing,
}

/// What follows a step of a start of the agent.
#[derive(Debug)]
pub enum StartNext {
    /// Start the helper with the stored bearer token.
    UseBearer,
    /// Start the helper and pair with it.
    Pair,
    /// The start succeeded: hand the supervisor over.
    Succeed,
    /// The start failed with this message.
    Fail(String),
}

pub enum StartNextView {
    UseBearer,
    Pair,
    Succeed,
    Fail(Seq<char>),
}

impl View for StartNext {
    type V = StartNextView;

    open spec fn view(&self) -> StartNextView {
        match self {
            StartNext::UseBearer => StartNextView::UseBearer,
            StartNext::Pair => StartNextView::Pair,
            StartNext::Succeed => StartNextView::Succeed,
            StartNext::Fail(m) => StartNextView::Fail(m@),
        }
    }
}

/// What follows the step `stage` of a start of the agent that ended with
/// `failure`, or without one. A helper that cannot be probed is fatal. A
/// stored bearer token is tried first where there is one; a token that is
/// refused falls back to pairing; a failed pairing is fatal. An automatic
/// start names a failed probe otherwise than a start on request.
pub open spec fn start_step(
    stage: StartStage,
    failure: Option<Seq<char>>,
    has_bearer: bool,
    automatic: bool,
) -> StartNextView {
    match stage {
        StartStage::CheckingBinary => match failure {
            Some(message) => StartNextView::Fail(
                if automatic {
                    "ZeroClaw binary not found: "@ + message
                } else {
                    "ZeroClaw startup failed: "@ + message
                },
            ),
            None => if automatic && has_bearer {
                StartNextView::UseBearer
            } else {
                StartNextView::Pair
            },
        },
        StartStage::UsingBearer => match failure {
            Some(_) => StartNextView::Pair,
            None => StartNextView::Succeed,
        },
        StartStage::Pairing => match failure {
            Some(message) => StartNextView::Fail("ZeroClaw pairing failed: "@ + message),
            None => StartNextView::Succeed,
        },
    }
}

/// Decides what follows a step of a start of the agent.
pub fn agent_start_step(
    stage: StartStage,
    failure: Option<String>,
    has_bearer: bool,
    automatic: bool,
) -> (r: StartNext)
    ensures
        r@ == start_step(stage, opt_text(failure), has_bearer, automatic),
{
    match stage {
        StartStage::CheckingBinary => match failure {
            Some(message) => StartNext::Fail(
                if automatic {
                    join2("ZeroClaw binary not found: ", message.as_str())
                } else {
                    join2("ZeroClaw startup failed: ", message.as_str())
                },
            ),
            None => if automatic && has_bearer {
                StartNext::UseBearer
            } else {
                StartNext::Pair
            },
        },
        StartStage::UsingBearer => match failure {
            Some(_) => StartNext::Pair,
            None => StartNext::Succeed,
        },
        StartStage::Pairing => match failure {
            Some(message) => StartNext::Fail(join2("ZeroClaw pairing failed: ", message.as_str())),
            None => StartNext::Succeed,
        },
    }
}

/// The result of a start of the agent: the supervisor, or the failure.
pub fn pairing_finished_event(outcome: Result<AgentRunner, String>) -> (r: AppAsyncEvent)
    ensures
        r matches AppAsyncEvent::ZeroClawPairingFinished { runner, error } && match outcome {
            Ok(started) => runner == Some(started) && error is None,
            Err(message) => runner is None && error == Some(message),
        },
{
    match outcome {
        Ok(started) => AppAsyncEvent::ZeroClawPairingFinished {
            runner: Some(started),
            error: None,
        },
        Err(message) => AppAsyncEvent::ZeroClawPairingFinished {
            runner: None,
            error: Some(message),
        },
    }
}

/// A start of the agent never tries the bearer token twice and never
/// pairs twice: after the probe at most one attempt with the token and at
/// most one pairing follow, so every start ends after at most three steps.
pub proof fn lemma_start_ends(failure: Option<Seq<char>>, has_bearer: bool, automatic: bool)
    ensures
        start_step(StartStage::Pairing, failure, has_bearer, automatic) is Succeed || start_step(
            StartStage::Pairing,
            failure,
            has_bearer,
            automatic,
        ) is Fail,
        !(start_step(StartStage::UsingBearer, failure, has_bearer, automatic) is UseBearer),
        start_step(StartStage::CheckingBinary, failure, has_bearer, automatic) is UseBearer
            ==> automatic && has_bearer && failure is None,
{
}

} // verus!
