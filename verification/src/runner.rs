//! The supervisor of the helper process: how it is started, how its
//! pairing code is found in its output, and what its status is.

use crate::gateway::GatewayClient;
use crate::retry::CallError;
use crate::text::{join2, decimal_string, decimal_text, opt_text, texts};
use vstd::prelude::*;

verus! {

/// The longest time the scan for the pairing code may take, in
/// milliseconds.
pub const PAIRING_DEADLINE_MS: u64 = 10_000;

/// The time a freshly started helper is given before its health is
/// probed, in milliseconds.
pub const SETTLE_TIME_MS: u64 = 500;

/// The pattern of the line that announces the pairing code: the marker in
/// any case, then the first run of six digits after it.
pub const PAIRING_PATTERN: &'static str = "(?i)pairing.code.*?(\\d{6})";

/// What the first capture group of the pattern `pattern` holds for the
/// leftmost match in `haystack`, as the `regex` crate finds it. `None`
/// where the pattern is no regular expression, nothing matches, or the
/// group took no part in the match.
pub uninterp spec fn regex_first_group(pattern: Seq<char>, haystack: Seq<char>) -> Option<
    Seq<char>,
>;

/// Compiles `pattern` with `regex::Regex::new`, searches `haystack` with
/// `Regex::captures`, and hands out the text of the first group. The
/// result depends on the two texts alone; the contract names it.
#[verifier::external_body]
fn first_group(pattern: &str, haystack: &str) -> (r: Option<String>)
    ensures
        opt_text(r) == regex_first_group(pattern@, haystack@),
{
    match regex::Regex::new(pattern) {
        Ok(re) => re.captures(haystack).and_then(|found| found.get(1)).map(
            |group| group.as_str().to_owned(),
        ),
        Err(_) => None,
    }
}

/// The pairing code that the output line `line` announces.
pub open spec fn pairing_code_in(line: Seq<char>) -> Option<Seq<char>> {
    regex_first_group(PAIRING_PATTERN@, line)
}

/// Looks for the pairing code in one line of the helper's output.
pub fn find_pairing_code(line: &str) -> (r: Option<String>)
    ensures
        opt_text(r) == pairing_code_in(line@),
{
    first_group(PAIRING_PATTERN, line)
}

/// What the scan for the pairing code sees next.
#[derive(Debug)]
pub enum ScanEvent {
    /// The helper printed this line.
    Line(String),
    /// The helper closed its output.
    Closed,
    /// The deadline passed.
    Deadline,
}

/// What the scan does after an event.
#[derive(Debug)]
pub enum ScanStep {
    /// Keep reading.
    Continue,
    /// The code was found: stop reading and exchange it.
    Found(String),
    /// The scan failed with this message. The helper is left running.
    Failed(String),
}

pub enum ScanStepView {
    Continue,
    Found(Seq<char>),
    Failed(Seq<char>),
}

impl View for ScanStep {
    type V = ScanStepView;

    open spec fn view(&self) -> ScanStepView {
        match self {
            ScanStep::Continue => ScanStepView::Continue,
            ScanStep::Found(code) => ScanStepView::Found(code@),
            ScanStep::Failed(message) => ScanStepView::Failed(message@),
        }
    }
}

/// What the scan does after `event`, given the code that a line announces.
/// A line with a code ends the scan with the code; any other line keeps it
/// going. The end of the output and the deadline end it with a failure.
pub open spec fn scan_step(event: ScanEvent, code: Option<Seq<char>>) -> ScanStepView {
    match event {
        ScanEvent::Line(_) => match code {
            Some(code) => ScanStepView::Found(code),
            None => ScanStepView::Continue,
        },
        ScanEvent::Closed => ScanStepView::Failed("Pairing code not found in output"@),
        ScanEvent::Deadline => ScanStepView::Failed("Timeout waiting for pairing code"@),
    }
}

/// The code that the event announces: that of its line, and none for the
/// end of the output and the deadline.
pub open spec fn announced(event: ScanEvent) -> Option<Seq<char>> {
    match event {
        ScanEvent::Line(line) => pairing_code_in(line@),
        _ => None,
    }
}

/// One step of the scan, given what the pattern found in the line of the
/// event.
pub fn scan_decide(event: &ScanEvent, code: Option<String>) -> (r: ScanStep)
    ensures
        r@ == scan_step(*event, opt_text(code)),
{
    match event {
        ScanEvent::Line(_) => match code {
            Some(code) => ScanStep::Found(code),
            None => ScanStep::Continue,
        },
        ScanEvent::Closed => ScanStep::Failed("Pairing code not found in output".to_owned()),
        ScanEvent::Deadline => ScanStep::Failed("Timeout waiting for pairing code".to_owned()),
    }
}

/// One step of the scan for the pairing code.
pub fn scan_output(event: &ScanEvent) -> (r: ScanStep)
    ensures
        r@ == scan_step(*event, announced(*event)),
{
    let code = match event {
        ScanEvent::Line(line) => find_pairing_code(line.as_str()),
        _ => None,
    };
    scan_decide(event, code)
}

/// How a scan ends that sees the events from index `i` on, in order: with
/// the first step that does not keep it reading. `None` where the events
/// run out while the scan still reads.
pub open spec fn scan_from(events: Seq<ScanEvent>, i: int) -> Option<ScanStepView>
    decreases events.len() - i,
{
    if i < 0 || i >= events.len() {
        None
    } else {
        match scan_step(events[i], announced(events[i])) {
            ScanStepView::Continue => scan_from(events, i + 1),
            step => Some(step),
        }
    }
}

/// The events from index `i` up to `k` are lines that announce no code.
pub open spec fn reads_on(events: Seq<ScanEvent>, i: int, k: int) -> bool {
    forall|j: int| i <= j < k ==> (#[trigger] events[j]) is Line && announced(events[j]) is None
}

/// A scan that sees only lines without a code until a line announces one
/// ends with that code, whatever follows.
pub proof fn lemma_scan_finds_first_code(events: Seq<ScanEvent>, i: int, k: int)
    requires
        0 <= i <= k < events.len(),
        reads_on(events, i, k),
        events[k] is Line,
        announced(events[k]) is Some,
    ensures
        scan_from(events, i) == Some(ScanStepView::Found(announced(events[k])->0)),
    decreases k - i,
{
    if i < k {
        assert(events[i] is Line && announced(events[i]) is None);
        lemma_scan_finds_first_code(events, i + 1, k);
    }
}

/// A scan that sees only lines without a code until the deadline passes
/// ends there with a timeout, and one whose output closes first ends
/// there without a code: the scan fails closed and does not read on.
pub proof fn lemma_scan_fails_closed(events: Seq<ScanEvent>, i: int, k: int)
    requires
        0 <= i <= k < events.len(),
        reads_on(events, i, k),
        events[k] is Deadline || events[k] is Closed,
    ensures
        scan_from(events, i) == Some(
            ScanStepView::Failed(
                if events[k] is Deadline {
                    "Timeout waiting for pairing code"@
                } else {
                    "Pairing code not found in output"@
                },
            ),
        ),
    decreases k - i,
{
    if i < k {
        assert(events[i] is Line && announced(events[i]) is None);
        lemma_scan_fails_closed(events, i + 1, k);
    }
}

/// What the supervisor reports of the helper.
#[derive(Debug)]
pub enum AgentStatus {
    Unavailable,
    Starting,
    Pairing,
    Active,
    Error(String),
}

/// A program and its arguments.
#[derive(Debug)]
pub struct CommandLine {
    pub program: String,
    pub args: Vec<String>,
}

/// The supervisor of the helper process. `child` says whether it holds a
/// running helper that it has to stop.
#[derive(Debug)]
pub struct AgentRunner {
    pub binary_path: String,
    pub gateway_port: u16,
    pub child: bool,
    pub gateway: Option<GatewayClient>,
}

impl AgentRunner {
    /// A supervisor without helper and without gateway.
    pub fn new(binary_path: String, gateway_port: u16) -> (r: AgentRunner)
        ensures
            r.binary_path == binary_path,
            r.gateway_port == gateway_port,
            !r.child,
            r.gateway is None,
    {
        AgentRunner { binary_path, gateway_port, child: false, gateway: None }
    }

    /// The command that probes the helper binary.
    pub fn check_binary_command(&self) -> (r: CommandLine)
        ensures
            r.program@ == self.binary_path@,
            texts(r.args@) == seq!["--version"@],
    {
        let mut args: Vec<String> = Vec::new();
        args.push("--version".to_owned());
        assert(texts(args@) =~= seq!["--version"@]);
        CommandLine { program: self.binary_path.clone(), args }
    }

    /// Reads the outcome of the probe: whether the helper exited with
    /// success, or the message of the failure to start it. A helper that
    /// could not be started or did not exit with success is fatal to
    /// pairing.
    pub fn check_binary(&self, outcome: Result<bool, String>) -> (r: Result<(), CallError>)
        ensures
            match r {
                Ok(_) => outcome == Ok::<bool, String>(true),
                Err(e) => e.transport is None && match outcome {
                    Ok(success) => !success && e.message@
                        == "ZeroClaw binary not found or not executable: "@ + self.binary_path@,
                    Err(message) => e.message == message,
                },
            },
    {
        match outcome {
            Ok(true) => Ok(()),
            Ok(false) => Err(
                CallError {
                    message: join2(
                        "ZeroClaw binary not found or not executable: ",
                        self.binary_path.as_str(),
                    ),
                    transport: None,
                },
            ),
            Err(message) => Err(CallError { message, transport: None }),
        }
    }

    /// The command that starts the gateway of the helper on the
    /// supervisor's port.
    pub fn gateway_command(&self) -> (r: CommandLine)
        ensures
            r.program@ == self.binary_path@,
            texts(r.args@) == seq!["gateway"@, "--port"@, decimal_text(self.gateway_port as nat)],
    {
        let mut args: Vec<String> = Vec::new();
        args.push("gateway".to_owned());
        args.push("--port".to_owned());
        args.push(decimal_string(self.gateway_port as u64));
        assert(texts(args@) =~= seq![
            "gateway"@,
            "--port"@,
            decimal_text(self.gateway_port as nat),
        ]);
        CommandLine { program: self.binary_path.clone(), args }
    }

    /// Ends a start with pairing: `paired` is the client that exchanged
    /// the code, or the failure of the scan or of the exchange. On success
    /// the supervisor keeps the helper and the gateway; on failure it
    /// keeps neither, and the helper is left to the caller.
    pub fn start_and_pair(&mut self, paired: Result<GatewayClient, CallError>) -> (r: Result<
        GatewayClient,
        CallError,
    >)
        ensures
            final(self).binary_path == old(self).binary_path,
            final(self).gateway_port == old(self).gateway_port,
            match paired {
                Ok(gateway) => r == Ok::<GatewayClient, CallError>(gateway) && final(self).child
                    && final(self).gateway == Some(gateway),
                Err(e) => r == Err::<GatewayClient, CallError>(e) && final(self).child == old(self).child && final(self).gateway == old(self).gateway,
            },
    {
        match paired {
            Ok(gateway) => {
                self.child = true;
                self.gateway = Some(gateway.duplicate());
                Ok(gateway)
            },
            Err(e) => Err(e),
        }
    }

    /// Ends a start with a stored bearer token: `healthy` is the outcome
    /// of the health probe after the settle time. A healthy gateway is
    /// kept with the token; else the start fails and the caller falls back
    /// to pairing.
    pub fn start_with_bearer(&mut self, bearer: &str, healthy: bool) -> (r: Result<
        GatewayClient,
        CallError,
    >)
        ensures
            final(self).binary_path == old(self).binary_path,
            final(self).gateway_port == old(self).gateway_port,
            match r {
                Ok(gateway) => healthy && final(self).child && final(self).gateway == Some(gateway)
                    && gateway.base_url@ == crate::gateway::gateway_url(old(self).gateway_port)
                    && opt_text(gateway.bearer) == Some(bearer@),
                Err(e) => !healthy && e.message@ == "Gateway health check failed"@
                    && e.transport is None && final(self).child == old(self).child && final(self).gateway == old(self).gateway,
            },
    {
        if !healthy {
            return Err(
                CallError { message: "Gateway health check failed".to_owned(), transport: None },
            );
        }
        let gateway = GatewayClient::new(self.gateway_port).with_bearer(bearer.to_owned());
        self.child = true;
        self.gateway = Some(gateway.duplicate());
        Ok(gateway)
    }

    /// Reads the probe of a gateway that was started elsewhere: whether it
    /// is paired, or `None` where it did not answer. Without a stored
    /// token no such gateway can be used, so this always fails, with a
    /// message that says what to do.
    pub fn connect_to_running_gateway(&self, paired: Option<bool>) -> (r: Result<
        GatewayClient,
        CallError,
    >)
        ensures
            r matches Err(e) && e.transport is None && e.message@ == match paired {
                Some(true) => "Gateway already paired. Please check configuration."@,
                Some(false) => "Gateway needs pairing. Check your terminal for the 6-digit code."@,
                None => "ZeroClaw gateway not accessible. Make sure it's running."@,
            },
    {
        let message = match paired {
            Some(true) => "Gateway already paired. Please check configuration.",
            Some(false) => "Gateway needs pairing. Check your terminal for the 6-digit code.",
            None => "ZeroClaw gateway not accessible. Make sure it's running.",
        };
        Err(CallError { message: message.to_owned(), transport: None })
    }

    /// The gateway client, once a start has succeeded.
    pub fn get_gateway(&self) -> (r: Option<&GatewayClient>)
        ensures
            match r {
                Some(gateway) => self.gateway == Some(*gateway),
                None => self.gateway is None,
            },
    {
        self.gateway.as_ref()
    }

    /// The status that follows from what the supervisor holds: unavailable
    /// without a gateway, pairing with an unpaired one, active with a
    /// paired one.
    pub open spec fn derived_status(self) -> AgentStatus {
        match self.gateway {
            None => AgentStatus::Unavailable,
            Some(gateway) => if gateway.bearer is Some {
                AgentStatus::Active
            } else {
                AgentStatus::Pairing
            },
        }
    }

    /// The status of the helper.
    pub fn status(&self) -> (r: AgentStatus)
        ensures
            r == self.derived_status(),
    {
        match &self.gateway {
            None => AgentStatus::Unavailable,
            Some(gateway) => if gateway.is_paired() {
                AgentStatus::Active
            } else {
                AgentStatus::Pairing
            },
        }
    }

    /// Lets go of helper and gateway. The result says whether there is a
    /// helper that the caller has to stop: with a graceful signal and a
    /// wait on shutdown, with a kill when the supervisor is dropped.
    pub fn shutdown(&mut self) -> (stop_child: bool)
        ensures
            stop_child == old(self).child,
            *final(self) == (AgentRunner { child: false, gateway: None, ..*old(self) }),
            final(self).derived_status() == AgentStatus::Unavailable,
    {
        let stop_child = self.child;
        self.child = false;
        self.gateway = None;
        stop_child
    }
}

} // verus!
