//! What the command line prints for the local endpoint's answers.

use vstd::prelude::*;
use crate::observations::{Phase, terminal_guidance, terminal_guidance_spec};
use crate::text::{chars_of, decimal, push_decimal, push_str, string_from_chars};

verus! {

/// The local endpoint's answer to one request.
#[derive(Clone, Copy, Debug, PartialEq, Eq, Structural)]
pub enum ControlResponse {
    /// The state change was applied.
    Applied,
    /// The share was cancelled.
    Cancelled,
    /// The request does not apply in the current state.
    NotFound,
    /// The content was queued under this share identifier.
    Queued { share_id: u64 },
    /// The endpoint is running.
    Ready,
    /// Endpoint observations.
    Snapshot,
    /// Any other answer.
    Other,
}

/// Why an answer is reported as a failure.
#[derive(Clone, Copy, Debug, PartialEq, Eq, Structural)]
pub enum ResponseError {
    /// The action is not available in the current state.
    NotAvailable,
    /// The endpoint answered with something this command does not expect.
    Unsupported,
    /// The endpoint did not confirm readiness.
    NotReady,
}

impl ResponseError {
    /// The user-facing description.
    pub fn message(&self) -> (r: &'static str)
        ensures
            r@ == response_error_message(*self),
    {
        match self {
            ResponseError::NotAvailable => "action is not available in the current state; check status --json and retry",
            ResponseError::Unsupported => "endpoint returned an unsupported response",
            ResponseError::NotReady => "endpoint did not confirm readiness",
        }
    }
}

/// The user-facing description of a refused answer.
pub open spec fn response_error_message(e: ResponseError) -> Seq<char> {
    match e {
        ResponseError::NotAvailable => "action is not available in the current state; check status --json and retry"@,
        ResponseError::Unsupported => "endpoint returned an unsupported response"@,
        ResponseError::NotReady => "endpoint did not confirm readiness"@,
    }
}

/// What a state-changing command prints for an answer.
pub open spec fn action_text_spec(response: ControlResponse) -> Result<Seq<char>, ResponseError> {
    match response {
        ControlResponse::Applied => Ok("Action applied.\n"@),
        ControlResponse::Cancelled => Ok("Share cancelled.\n"@),
        ControlResponse::NotFound => Err(ResponseError::NotAvailable),
        _ => Err(ResponseError::Unsupported),
    }
}

/// Returns what a state-changing command prints for an answer.
pub fn action_text(response: ControlResponse) -> (r: Result<String, ResponseError>)
    ensures
        match r {
            Ok(t) => action_text_spec(response) == Ok::<Seq<char>, ResponseError>(t@),
            Err(e) => action_text_spec(response) == Err::<Seq<char>, ResponseError>(e),
        },
{
    match response {
        ControlResponse::Applied => Ok(string_from_chars(chars_of("Action applied.\n").as_slice())),
        ControlResponse::Cancelled => Ok(string_from_chars(chars_of("Share cancelled.\n").as_slice())),
        ControlResponse::NotFound => Err(ResponseError::NotAvailable),
        _ => Err(ResponseError::Unsupported),
    }
}

/// What a submit prints: `Share N queued.`
pub open spec fn submitted_text_spec(response: ControlResponse) -> Result<Seq<char>, ResponseError> {
    match response {
        ControlResponse::Queued { share_id } => Ok("Share "@ + decimal(share_id as nat) + " queued.\n"@),
        _ => Err(ResponseError::Unsupported),
    }
}

/// Returns what a submit prints for an answer.
pub fn submitted_text(response: ControlResponse) -> (r: Result<String, ResponseError>)
    ensures
        match r {
            Ok(t) => submitted_text_spec(response) == Ok::<Seq<char>, ResponseError>(t@),
            Err(e) => submitted_text_spec(response) == Err::<Seq<char>, ResponseError>(e),
        },
{
    match response {
        ControlResponse::Queued { share_id } => {
            let mut out = chars_of("Share ");
            push_decimal(&mut out, share_id);
            push_str(&mut out, " queued.\n");
            Ok(string_from_chars(out.as_slice()))
        },
        _ => Err(ResponseError::Unsupported),
    }
}

/// What `health` prints for an answer.
pub open spec fn health_text_spec(response: ControlResponse) -> Result<Seq<char>, ResponseError> {
    match response {
        ControlResponse::Ready => Ok("available\n"@),
        _ => Err(ResponseError::NotReady),
    }
}

/// Returns what `health` prints for an answer.
pub fn health_text(response: ControlResponse) -> (r: Result<String, ResponseError>)
    ensures
        match r {
            Ok(t) => health_text_spec(response) == Ok::<Seq<char>, ResponseError>(t@),
            Err(e) => health_text_spec(response) == Err::<Seq<char>, ResponseError>(e),
        },
{
    match response {
        ControlResponse::Ready => Ok(string_from_chars(chars_of("available\n").as_slice())),
        _ => Err(ResponseError::NotReady),
    }
}

/// The active share as `status` shows it, with phase and direction names
/// already written.
#[derive(Debug)]
pub struct ActiveShareLine {
    /// The share identifier.
    pub share_id: u64,
    /// `inbound`, `outbound` or `unknown`.
    pub direction: String,
    /// The phase as the endpoint names it.
    pub phase_name: String,
    /// The phase, for terminal guidance.
    pub phase: Phase,
    /// Bytes moved so far.
    pub transferred_bytes: u64,
    /// Bytes in the share.
    pub total_bytes: u64,
    /// The code both devices show while consent is open.
    pub verification_code: Option<String>,
}

/// The active share with its strings as characters.
pub ghost struct ActiveShareView {
    pub share_id: u64,
    pub direction: Seq<char>,
    pub phase_name: Seq<char>,
    pub phase: Phase,
    pub transferred_bytes: u64,
    pub total_bytes: u64,
    pub verification_code: Option<Seq<char>>,
}

impl View for ActiveShareLine {
    type V = ActiveShareView;

    open spec fn view(&self) -> ActiveShareView {
        ActiveShareView {
            share_id: self.share_id,
            direction: self.direction@,
            phase_name: self.phase_name@,
            phase: self.phase,
            transferred_bytes: self.transferred_bytes,
            total_bytes: self.total_bytes,
            verification_code: match self.verification_code {
                Some(c) => Some(c@),
                None => None,
            },
        }
    }
}

/// One `key=value` line.
pub open spec fn line(key: Seq<char>, value: Seq<char>) -> Seq<char> {
    key + "="@ + value + "\n"@
}

/// The lines `status` prints for the active share.
pub open spec fn active_lines(a: ActiveShareView) -> Seq<char> {
    line("share_id"@, decimal(a.share_id as nat))
        + line("direction"@, a.direction)
        + line("phase"@, a.phase_name)
        + line("transferred_bytes"@, decimal(a.transferred_bytes as nat))
        + line("total_bytes"@, decimal(a.total_bytes as nat))
        + match a.verification_code {
            Some(c) => line("verification_code"@, c),
            None => Seq::empty(),
        }
        + match terminal_guidance_spec(a.phase) {
            Some((reason, hint)) => line("terminal_reason"@, reason) + line("recovery_guidance"@, hint),
            None => Seq::empty(),
        }
}

/// The text `status` prints: the receive directory, the discovery and
/// visibility phases, the pinned peer (the endpoint's, else the saved one),
/// and the active share when there is one.
pub open spec fn status_text_spec(
    receive_directory: Seq<char>,
    discovery: Seq<char>,
    visibility: Seq<char>,
    pinned_peer: Option<Seq<char>>,
    saved_peer: Option<Seq<char>>,
    active: Option<ActiveShareView>,
) -> Seq<char> {
    line("receive_directory"@, receive_directory)
        + line("discovery"@, discovery)
        + line("visibility"@, visibility)
        + line("pinned_peer"@, match pinned_peer {
            Some(p) => p,
            None => match saved_peer {
                Some(p) => p,
                None => Seq::empty(),
            },
        })
        + match active {
            Some(a) => active_lines(a),
            None => Seq::empty(),
        }
}

/// Appends one `key=value` line.
fn push_line(out: &mut Vec<char>, key: &str, value: &str)
    ensures
        final(out)@ == old(out)@ + line(key@, value@),
{
    push_str(out, key);
    push_str(out, "=");
    push_str(out, value);
    push_str(out, "\n");
    assert(final(out)@ =~= old(out)@ + line(key@, value@));
}

/// Appends one `key=number` line.
fn push_number_line(out: &mut Vec<char>, key: &str, value: u64)
    ensures
        final(out)@ == old(out)@ + line(key@, decimal(value as nat)),
{
    push_str(out, key);
    push_str(out, "=");
    push_decimal(out, value);
    push_str(out, "\n");
    assert(final(out)@ =~= old(out)@ + line(key@, decimal(value as nat)));
}

/// Appends the lines of the active share.
fn push_active(out: &mut Vec<char>, a: &ActiveShareLine)
    ensures
        final(out)@ == old(out)@ + active_lines(a@),
{
    let ghost start = out@;
    push_number_line(out, "share_id", a.share_id);
    push_line(out, "direction", a.direction.as_str());
    push_line(out, "phase", a.phase_name.as_str());
    push_number_line(out, "transferred_bytes", a.transferred_bytes);
    push_number_line(out, "total_bytes", a.total_bytes);
    let ghost numbers = out@;
    match &a.verification_code {
        Some(code) => push_line(out, "verification_code", code.as_str()),
        None => {},
    }
    let ghost coded = out@;
    match terminal_guidance(a.phase) {
        Some((reason, hint)) => {
            push_line(out, "terminal_reason", reason);
            push_line(out, "recovery_guidance", hint);
        },
        None => {},
    }
    proof {
        let av = a@;
        assert(coded =~= numbers + match av.verification_code {
            Some(c) => line("verification_code"@, c),
            None => Seq::<char>::empty(),
        });
        assert(out@ =~= coded + match terminal_guidance_spec(av.phase) {
            Some((reason, hint)) => line("terminal_reason"@, reason) + line("recovery_guidance"@, hint),
            None => Seq::<char>::empty(),
        });
        assert(out@ =~= start + active_lines(av));
    }
}

/// Writes the text `status` prints for endpoint observations.
pub fn status_text(
    receive_directory: &str,
    discovery: &str,
    visibility: &str,
    pinned_peer: Option<&str>,
    saved_peer: Option<&str>,
    active: Option<&ActiveShareLine>,
) -> (r: String)
    ensures
        r@ == status_text_spec(
            receive_directory@,
            discovery@,
            visibility@,
            match pinned_peer {
                Some(p) => Some(p@),
                None => None,
            },
            match saved_peer {
                Some(p) => Some(p@),
                None => None,
            },
            match active {
                Some(a) => Some(a@),
                None => None,
            },
        ),
{
    let mut out: Vec<char> = Vec::new();
    push_line(&mut out, "receive_directory", receive_directory);
    push_line(&mut out, "discovery", discovery);
    push_line(&mut out, "visibility", visibility);
    let pinned = match pinned_peer {
        Some(p) => p,
        None => match saved_peer {
            Some(p) => p,
            None => "",
        },
    };
    proof {
        reveal_strlit("");
    }
    push_line(&mut out, "pinned_peer", pinned);
    let ghost head = out@;
    match active {
        Some(a) => push_active(&mut out, a),
        None => {},
    }
    assert(out@ =~= head + match active {
        Some(a) => active_lines(a@),
        None => Seq::<char>::empty(),
    });
    string_from_chars(out.as_slice())
}

} // verus!
