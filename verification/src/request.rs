//! Control requests a client sends to the local endpoint, and the legacy
//! flag form of state-changing commands.

use vstd::prelude::*;
use vstd::utf8::encode_utf8;
use crate::text::{decimal, digit_char, owned, seq_starts_with, str_eq, str_starts_with};

verus! {

/// One request of the local control protocol.
#[derive(Debug)]
#[allow(inconsistent_fields)]
pub enum ControlRequest {
    /// Accept one inbound share.
    Accept { share_id: u64 },
    /// Cancel one active share.
    Cancel { share_id: u64 },
    /// Stop advertising this endpoint.
    CloseVisibility,
    /// Start or restart the outbound peer search.
    Discover,
    /// Clear one terminal share from public state.
    Dismiss { share_id: u64 },
    /// Advertise this endpoint to nearby senders.
    OpenVisibility,
    /// Prefer one observed peer for future shares.
    PinPeer { peer_id: String },
    /// Reject one inbound share.
    Reject { share_id: u64 },
    /// Choose a peer for one queued outbound share.
    SelectPeer { share_id: u64, peer_id: String },
    /// Stop the current outbound peer search.
    StopDiscovery,
    /// Clear the single pinned peer.
    UnpinPeer,
    /// Read the public endpoint snapshot.
    Snapshot,
    /// Confirm that the endpoint is ready.
    Status,
    /// Share a file or folder.
    SubmitFile { path: String, peer_id: Option<String> },
    /// Share text.
    SubmitText { text: String, peer_id: Option<String> },
    /// Share a URL.
    SubmitUrl { url: String, peer_id: Option<String> },
    /// Expire the current outbound search.
    SimulateDiscoveryTimeout,
    /// Fail one active share.
    SimulateFail { share_id: u64 },
    /// Offer a deterministic inbound file.
    SimulateIncomingFile { name: String, size_bytes: u64 },
    /// Offer a deterministic inbound text payload.
    SimulateIncomingText { text: String },
    /// Offer a deterministic inbound URL.
    SimulateIncomingUrl { url: String },
    /// Accept the outbound share as the selected peer.
    SimulatePeerAccept { share_id: u64 },
    /// Remove one observed peer.
    SimulatePeerLost { peer_id: String },
    /// Reject the outbound share as the selected peer.
    SimulatePeerReject { share_id: u64 },
    /// Observe one simulated peer.
    SimulatePeerSeen { peer_id: String, name: String },
    /// Record transfer progress for one share.
    SimulateProgress { share_id: u64, transferred_bytes: u64 },
}

/// A control request with its strings as character sequences.
#[allow(inconsistent_fields)]
pub ghost enum RequestView {
    Accept { share_id: u64 },
    Cancel { share_id: u64 },
    CloseVisibility,
    Discover,
    Dismiss { share_id: u64 },
    OpenVisibility,
    PinPeer { peer_id: Seq<char> },
    Reject { share_id: u64 },
    SelectPeer { share_id: u64, peer_id: Seq<char> },
    StopDiscovery,
    UnpinPeer,
    Snapshot,
    Status,
    SubmitFile { path: Seq<char>, peer_id: Option<Seq<char>> },
    SubmitText { text: Seq<char>, peer_id: Option<Seq<char>> },
    SubmitUrl { url: Seq<char>, peer_id: Option<Seq<char>> },
    SimulateDiscoveryTimeout,
    SimulateFail { share_id: u64 },
    SimulateIncomingFile { name: Seq<char>, size_bytes: u64 },
    SimulateIncomingText { text: Seq<char> },
    SimulateIncomingUrl { url: Seq<char> },
    SimulatePeerAccept { share_id: u64 },
    SimulatePeerLost { peer_id: Seq<char> },
    SimulatePeerReject { share_id: u64 },
    SimulatePeerSeen { peer_id: Seq<char>, name: Seq<char> },
    SimulateProgress { share_id: u64, transferred_bytes: u64 },
}

/// The view of an optional string.
pub open spec fn opt_view(s: Option<String>) -> Option<Seq<char>> {
    match s {
        Some(v) => Some(v@),
        None => None,
    }
}

impl View for ControlRequest {
    type V = RequestView;

    open spec fn view(&self) -> RequestView {
        match self {
            ControlRequest::Accept { share_id } => RequestView::Accept { share_id: *share_id },
            ControlRequest::Cancel { share_id } => RequestView::Cancel { share_id: *share_id },
            ControlRequest::CloseVisibility => RequestView::CloseVisibility,
            ControlRequest::Discover => RequestView::Discover,
            ControlRequest::Dismiss { share_id } => RequestView::Dismiss { share_id: *share_id },
            ControlRequest::OpenVisibility => RequestView::OpenVisibility,
            ControlRequest::PinPeer { peer_id } => RequestView::PinPeer { peer_id: peer_id@ },
            ControlRequest::Reject { share_id } => RequestView::Reject { share_id: *share_id },
            ControlRequest::SelectPeer { share_id, peer_id } => RequestView::SelectPeer {
                share_id: *share_id,
                peer_id: peer_id@,
            },
            ControlRequest::StopDiscovery => RequestView::StopDiscovery,
            ControlRequest::UnpinPeer => RequestView::UnpinPeer,
            ControlRequest::Snapshot => RequestView::Snapshot,
            ControlRequest::Status => RequestView::Status,
            ControlRequest::SubmitFile { path, peer_id } => RequestView::SubmitFile {
                path: path@,
                peer_id: opt_view(*peer_id),
            },
            ControlRequest::SubmitText { text, peer_id } => RequestView::SubmitText {
                text: text@,
                peer_id: opt_view(*peer_id),
            },
            ControlRequest::SubmitUrl { url, peer_id } => RequestView::SubmitUrl {
                url: url@,
                peer_id: opt_view(*peer_id),
            },
            ControlRequest::SimulateDiscoveryTimeout => RequestView::SimulateDiscoveryTimeout,
            ControlRequest::SimulateFail { share_id } => RequestView::SimulateFail { share_id: *share_id },
            ControlRequest::SimulateIncomingFile { name, size_bytes } => RequestView::SimulateIncomingFile {
                name: name@,
                size_bytes: *size_bytes,
            },
            ControlRequest::SimulateIncomingText { text } => RequestView::SimulateIncomingText { text: text@ },
            ControlRequest::SimulateIncomingUrl { url } => RequestView::SimulateIncomingUrl { url: url@ },
            ControlRequest::SimulatePeerAccept { share_id } => RequestView::SimulatePeerAccept { share_id: *share_id },
            ControlRequest::SimulatePeerLost { peer_id } => RequestView::SimulatePeerLost { peer_id: peer_id@ },
            ControlRequest::SimulatePeerReject { share_id } => RequestView::SimulatePeerReject { share_id: *share_id },
            ControlRequest::SimulatePeerSeen { peer_id, name } => RequestView::SimulatePeerSeen {
                peer_id: peer_id@,
                name: name@,
            },
            ControlRequest::SimulateProgress { share_id, transferred_bytes } => RequestView::SimulateProgress {
                share_id: *share_id,
                transferred_bytes: *transferred_bytes,
            },
        }
    }
}

/// Which number an argument was meant to hold.
#[derive(Clone, Copy, Debug, PartialEq, Eq, Structural)]
pub enum NumberField {
    /// A share identifier.
    ShareId,
    /// A byte count.
    ByteCount,
}

/// Why command arguments were refused. Every variant but
/// `SimulationUnavailable` is an invalid-input error; that one is a
/// permission error.
#[derive(Clone, Copy, Debug, PartialEq, Eq, Structural)]
pub enum ArgumentError {
    /// A number argument is not a non-negative integer.
    InvalidNumber(NumberField),
    /// Simulator commands need a simulated daemon and explicit opt-in.
    SimulationUnavailable,
    /// A `--simulate-` flag that names no simulator event.
    UnrecognizedSimulation,
}

/// Whether `b` is an ASCII digit.
pub open spec fn is_digit(b: u8) -> bool {
    48 <= b <= 57
}

/// The decimal value of a digit string.
pub open spec fn digits_value(d: Seq<u8>) -> int
    decreases d.len(),
{
    if d.len() == 0 {
        0
    } else {
        digits_value(d.drop_last()) * 10 + (d.last() - 48)
    }
}

/// The digits of an unsigned number: the bytes after an optional `+`.
pub open spec fn unsigned_digits(b: Seq<u8>) -> Seq<u8> {
    if b.len() > 0 && b[0] == 43 { b.skip(1) } else { b }
}

/// Whether every byte is an ASCII digit.
pub open spec fn all_digits(d: Seq<u8>) -> bool {
    forall|i: int| 0 <= i < d.len() ==> is_digit(#[trigger] d[i])
}

/// `u64::from_str` on UTF-8 bytes: an optional `+`, then one or more ASCII
/// digits whose value fits in a `u64`.
pub open spec fn parse_u64_spec(b: Seq<u8>) -> Option<u64> {
    let d = unsigned_digits(b);
    if d.len() == 0 || !all_digits(d) || digits_value(d) > u64::MAX {
        None
    } else {
        Some(digits_value(d) as u64)
    }
}

/// A longer digit string never has a smaller value.
proof fn lemma_digits_value_grows(d: Seq<u8>, k: int)
    requires
        0 <= k <= d.len(),
        forall|i: int| 0 <= i < d.len() ==> is_digit(#[trigger] d[i]),
    ensures
        0 <= digits_value(d.take(k)) <= digits_value(d),
    decreases d.len(),
{
    if d.len() > 0 {
        if k == d.len() {
            assert(d.take(k) =~= d);
            lemma_digits_value_grows(d.drop_last(), d.len() - 1);
            assert(d.drop_last().take(d.len() - 1) =~= d.drop_last());
        } else {
            lemma_digits_value_grows(d.drop_last(), k);
            assert(d.drop_last().take(k) =~= d.take(k));
            lemma_digits_value_grows(d.drop_last(), d.len() - 1);
            assert(d.drop_last().take(d.len() - 1) =~= d.drop_last());
        }
    }
}

/// Parses a non-negative integer as `u64::from_str` does.
pub fn parse_u64(value: &str) -> (r: Option<u64>)
    ensures
        r == parse_u64_spec(encode_utf8(value@)),
{
    let b = value.as_bytes();
    let ghost bs = b@;
    let start: usize = if b.len() > 0 && b[0] == 43 { 1 } else { 0 };
    let ghost d = unsigned_digits(bs);
    assert(d =~= bs.skip(start as int));
    if start == b.len() {
        return None;
    }
    let mut i = start;
    while i < b.len()
        invariant
            start <= i <= b@.len(),
            b@ == bs,
            bs == encode_utf8(value@),
            d == unsigned_digits(bs),
            d == bs.skip(start as int),
            forall|j: int| start <= j < i ==> is_digit(#[trigger] bs[j]),
        decreases b@.len() - i,
    {
        if b[i] < 48 || b[i] > 57 {
            assert(d[i - start] == bs[i as int]);
            assert(!is_digit(d[i - start]));
            return None;
        }
        i = i + 1;
    }
    assert forall|j: int| 0 <= j < d.len() implies is_digit(#[trigger] d[j]) by {
        assert(d[j] == bs[start + j]);
    }
    let mut acc: u64 = 0;
    let mut k = start;
    while k < b.len()
        invariant
            start <= k <= b@.len(),
            b@ == bs,
            bs == encode_utf8(value@),
            d == unsigned_digits(bs),
            d == bs.skip(start as int),
            forall|j: int| 0 <= j < d.len() ==> is_digit(#[trigger] d[j]),
            acc == digits_value(d.take(k - start)),
        decreases b@.len() - k,
    {
        assert(d.take(k - start + 1).drop_last() =~= d.take(k - start));
        assert(d.take(k - start + 1).last() == b@[k as int]);
        let digit = (b[k] - 48) as u64;
        let next = match acc.checked_mul(10) {
            Some(v) => v.checked_add(digit),
            None => None,
        };
        match next {
            Some(v) => {
                acc = v;
            },
            None => {
                proof {
                    lemma_digits_value_grows(d, k - start + 1);
                    assert(digits_value(d.take(k - start + 1)) == acc * 10 + digit);
                    assert(digits_value(d) > u64::MAX);
                }
                return None;
            },
        }
        k = k + 1;
    }
    assert(d.take(d.len() as int) =~= d);
    Some(acc)
}

/// A number argument as `parse_number` reads it.
pub open spec fn number_arg(arg: Seq<char>, field: NumberField) -> Result<u64, ArgumentError> {
    match parse_u64_spec(encode_utf8(arg)) {
        Some(v) => Ok(v),
        None => Err(ArgumentError::InvalidNumber(field)),
    }
}

/// Parses a non-negative control protocol integer.
pub fn parse_number(value: &str, field: NumberField) -> (r: Result<u64, ArgumentError>)
    ensures
        r == number_arg(value@, field),
{
    match parse_u64(value) {
        Some(v) => Ok(v),
        None => Err(ArgumentError::InvalidNumber(field)),
    }
}

/// A request carrying one share identifier.
pub open spec fn with_share_id(
    arg: Seq<char>,
    make: spec_fn(u64) -> RequestView,
) -> Result<Option<RequestView>, ArgumentError> {
    match number_arg(arg, NumberField::ShareId) {
        Ok(v) => Ok(Some(make(v))),
        Err(e) => Err(e),
    }
}

/// The state-changing request a flag-form command names, or `None` for an
/// argument list that is no flag command.
pub open spec fn action_request_spec(
    args: Seq<Seq<char>>,
    simulation_allowed: bool,
) -> Result<Option<RequestView>, ArgumentError> {
    if args.len() == 2 && args[0] == "--accept"@ {
        with_share_id(args[1], |v: u64| RequestView::Accept { share_id: v })
    } else if args.len() == 2 && args[0] == "--cancel"@ {
        with_share_id(args[1], |v: u64| RequestView::Cancel { share_id: v })
    } else if args.len() == 1 && args[0] == "--close-visibility"@ {
        Ok(Some(RequestView::CloseVisibility))
    } else if args.len() == 1 && args[0] == "--discover"@ {
        Ok(Some(RequestView::Discover))
    } else if args.len() == 2 && args[0] == "--dismiss"@ {
        with_share_id(args[1], |v: u64| RequestView::Dismiss { share_id: v })
    } else if args.len() == 1 && args[0] == "--open-visibility"@ {
        Ok(Some(RequestView::OpenVisibility))
    } else if args.len() == 2 && args[0] == "--pin"@ {
        Ok(Some(RequestView::PinPeer { peer_id: args[1] }))
    } else if args.len() == 2 && args[0] == "--reject"@ {
        with_share_id(args[1], |v: u64| RequestView::Reject { share_id: v })
    } else if args.len() == 3 && args[0] == "--send-to"@ {
        match number_arg(args[1], NumberField::ShareId) {
            Ok(v) => Ok(Some(RequestView::SelectPeer { share_id: v, peer_id: args[2] })),
            Err(e) => Err(e),
        }
    } else if args.len() == 1 && args[0] == "--stop-discovery"@ {
        Ok(Some(RequestView::StopDiscovery))
    } else if args.len() == 1 && args[0] == "--unpin"@ {
        Ok(Some(RequestView::UnpinPeer))
    } else {
        simulation_action_request_spec(args, simulation_allowed)
    }
}

/// The simulator request a `--simulate-` flag command names.
pub open spec fn simulation_action_request_spec(
    args: Seq<Seq<char>>,
    simulation_allowed: bool,
) -> Result<Option<RequestView>, ArgumentError> {
    if !(args.len() > 0 && seq_starts_with(args[0], "--simulate-"@)) {
        Ok(None)
    } else if !simulation_allowed {
        Err(ArgumentError::SimulationUnavailable)
    } else if args.len() == 1 && args[0] == "--simulate-discovery-timeout"@ {
        Ok(Some(RequestView::SimulateDiscoveryTimeout))
    } else if args.len() == 2 && args[0] == "--simulate-fail"@ {
        with_share_id(args[1], |v: u64| RequestView::SimulateFail { share_id: v })
    } else if args.len() == 3 && args[0] == "--simulate-incoming-file"@ {
        match number_arg(args[2], NumberField::ByteCount) {
            Ok(v) => Ok(Some(RequestView::SimulateIncomingFile { name: args[1], size_bytes: v })),
            Err(e) => Err(e),
        }
    } else if args.len() == 2 && args[0] == "--simulate-incoming-text"@ {
        Ok(Some(RequestView::SimulateIncomingText { text: args[1] }))
    } else if args.len() == 2 && args[0] == "--simulate-incoming-url"@ {
        Ok(Some(RequestView::SimulateIncomingUrl { url: args[1] }))
    } else if args.len() == 2 && args[0] == "--simulate-peer-accept"@ {
        with_share_id(args[1], |v: u64| RequestView::SimulatePeerAccept { share_id: v })
    } else if args.len() == 2 && args[0] == "--simulate-peer-lost"@ {
        Ok(Some(RequestView::SimulatePeerLost { peer_id: args[1] }))
    } else if args.len() == 2 && args[0] == "--simulate-peer-reject"@ {
        with_share_id(args[1], |v: u64| RequestView::SimulatePeerReject { share_id: v })
    } else if args.len() == 3 && args[0] == "--simulate-peer-seen"@ {
        Ok(Some(RequestView::SimulatePeerSeen { peer_id: args[1], name: args[2] }))
    } else if args.len() == 3 && args[0] == "--simulate-progress"@ {
        match number_arg(args[1], NumberField::ShareId) {
            Ok(id) => match number_arg(args[2], NumberField::ByteCount) {
                Ok(bytes) => Ok(Some(RequestView::SimulateProgress { share_id: id, transferred_bytes: bytes })),
                Err(e) => Err(e),
            },
            Err(e) => Err(e),
        }
    } else {
        Err(ArgumentError::UnrecognizedSimulation)
    }
}

/// The views of a list of strings.
pub open spec fn strings_view(args: Seq<String>) -> Seq<Seq<char>> {
    args.map_values(|s: String| s@)
}

/// The view of an optional request.
pub open spec fn opt_request_view(r: Option<ControlRequest>) -> Option<RequestView> {
    match r {
        Some(q) => Some(q@),
        None => None,
    }
}

/// The view of a request result.
pub open spec fn request_result_view(
    r: Result<Option<ControlRequest>, ArgumentError>,
) -> Result<Option<RequestView>, ArgumentError> {
    match r {
        Ok(q) => Ok(opt_request_view(q)),
        Err(e) => Err(e),
    }
}

/// Parses one state-changing command in flag form. `simulation_allowed` is
/// whether the process opted in to simulator commands.
pub fn action_request(arguments: &[String], simulation_allowed: bool) -> (r: Result<Option<ControlRequest>, ArgumentError>)
    ensures
        request_result_view(r) == action_request_spec(strings_view(arguments@), simulation_allowed),
{
    let ghost args = strings_view(arguments@);
    let n = arguments.len();
    if n >= 1 {
        assert(args[0] == arguments@[0]@);
    }
    if n >= 2 {
        assert(args[1] == arguments@[1]@);
    }
    if n >= 3 {
        assert(args[2] == arguments@[2]@);
    }
    if n == 2 && str_eq(arguments[0].as_str(), "--accept") {
        return match parse_number(arguments[1].as_str(), NumberField::ShareId) {
            Ok(v) => Ok(Some(ControlRequest::Accept { share_id: v })),
            Err(e) => Err(e),
        };
    }
    if n == 2 && str_eq(arguments[0].as_str(), "--cancel") {
        return match parse_number(arguments[1].as_str(), NumberField::ShareId) {
            Ok(v) => Ok(Some(ControlRequest::Cancel { share_id: v })),
            Err(e) => Err(e),
        };
    }
    if n == 1 && str_eq(arguments[0].as_str(), "--close-visibility") {
        return Ok(Some(ControlRequest::CloseVisibility));
    }
    if n == 1 && str_eq(arguments[0].as_str(), "--discover") {
        return Ok(Some(ControlRequest::Discover));
    }
    if n == 2 && str_eq(arguments[0].as_str(), "--dismiss") {
        return match parse_number(arguments[1].as_str(), NumberField::ShareId) {
            Ok(v) => Ok(Some(ControlRequest::Dismiss { share_id: v })),
            Err(e) => Err(e),
        };
    }
    if n == 1 && str_eq(arguments[0].as_str(), "--open-visibility") {
        return Ok(Some(ControlRequest::OpenVisibility));
    }
    if n == 2 && str_eq(arguments[0].as_str(), "--pin") {
        return Ok(Some(ControlRequest::PinPeer { peer_id: arguments[1].clone() }));
    }
    if n == 2 && str_eq(arguments[0].as_str(), "--reject") {
        return match parse_number(arguments[1].as_str(), NumberField::ShareId) {
            Ok(v) => Ok(Some(ControlRequest::Reject { share_id: v })),
            Err(e) => Err(e),
        };
    }
    if n == 3 && str_eq(arguments[0].as_str(), "--send-to") {
        return match parse_number(arguments[1].as_str(), NumberField::ShareId) {
            Ok(v) => Ok(Some(ControlRequest::SelectPeer { share_id: v, peer_id: arguments[2].clone() })),
            Err(e) => Err(e),
        };
    }
    if n == 1 && str_eq(arguments[0].as_str(), "--stop-discovery") {
        return Ok(Some(ControlRequest::StopDiscovery));
    }
    if n == 1 && str_eq(arguments[0].as_str(), "--unpin") {
        return Ok(Some(ControlRequest::UnpinPeer));
    }
    simulation_action_request(arguments, simulation_allowed)
}

/// Parses one simulator-only peer or transport event in flag form.
pub fn simulation_action_request(arguments: &[String], simulation_allowed: bool) -> (r: Result<Option<ControlRequest>, ArgumentError>)
    ensures
        request_result_view(r) == simulation_action_request_spec(strings_view(arguments@), simulation_allowed),
{
    let ghost args = strings_view(arguments@);
    let n = arguments.len();
    if n >= 1 {
        assert(args[0] == arguments@[0]@);
    }
    if n >= 2 {
        assert(args[1] == arguments@[1]@);
    }
    if n >= 3 {
        assert(args[2] == arguments@[2]@);
    }
    if n == 0 || !str_starts_with(arguments[0].as_str(), "--simulate-") {
        return Ok(None);
    }
    if !simulation_allowed {
        return Err(ArgumentError::SimulationUnavailable);
    }
    if n == 1 && str_eq(arguments[0].as_str(), "--simulate-discovery-timeout") {
        return Ok(Some(ControlRequest::SimulateDiscoveryTimeout));
    }
    if n == 2 && str_eq(arguments[0].as_str(), "--simulate-fail") {
        return match parse_number(arguments[1].as_str(), NumberField::ShareId) {
            Ok(v) => Ok(Some(ControlRequest::SimulateFail { share_id: v })),
            Err(e) => Err(e),
        };
    }
    if n == 3 && str_eq(arguments[0].as_str(), "--simulate-incoming-file") {
        return match parse_number(arguments[2].as_str(), NumberField::ByteCount) {
            Ok(v) => Ok(Some(ControlRequest::SimulateIncomingFile { name: arguments[1].clone(), size_bytes: v })),
            Err(e) => Err(e),
        };
    }
    if n == 2 && str_eq(arguments[0].as_str(), "--simulate-incoming-text") {
        return Ok(Some(ControlRequest::SimulateIncomingText { text: arguments[1].clone() }));
    }
    if n == 2 && str_eq(arguments[0].as_str(), "--simulate-incoming-url") {
        return Ok(Some(ControlRequest::SimulateIncomingUrl { url: arguments[1].clone() }));
    }
    if n == 2 && str_eq(arguments[0].as_str(), "--simulate-peer-accept") {
        return match parse_number(arguments[1].as_str(), NumberField::ShareId) {
            Ok(v) => Ok(Some(ControlRequest::SimulatePeerAccept { share_id: v })),
            Err(e) => Err(e),
        };
    }
    if n == 2 && str_eq(arguments[0].as_str(), "--simulate-peer-lost") {
        return Ok(Some(ControlRequest::SimulatePeerLost { peer_id: arguments[1].clone() }));
    }
    if n == 2 && str_eq(arguments[0].as_str(), "--simulate-peer-reject") {
        return match parse_number(arguments[1].as_str(), NumberField::ShareId) {
            Ok(v) => Ok(Some(ControlRequest::SimulatePeerReject { share_id: v })),
            Err(e) => Err(e),
        };
    }
    if n == 3 && str_eq(arguments[0].as_str(), "--simulate-peer-seen") {
        return Ok(Some(ControlRequest::SimulatePeerSeen {
            peer_id: arguments[1].clone(),
            name: arguments[2].clone(),
        }));
    }
    if n == 3 && str_eq(arguments[0].as_str(), "--simulate-progress") {
        let share_id = match parse_number(arguments[1].as_str(), NumberField::ShareId) {
            Ok(v) => v,
            Err(e) => return Err(e),
        };
        return match parse_number(arguments[2].as_str(), NumberField::ByteCount) {
            Ok(bytes) => Ok(Some(ControlRequest::SimulateProgress { share_id, transferred_bytes: bytes })),
            Err(e) => Err(e),
        };
    }
    Err(ArgumentError::UnrecognizedSimulation)
}


/// Whether text names a web URL.
pub open spec fn is_web_url(text: Seq<char>) -> bool {
    seq_starts_with(text, "http://"@) || seq_starts_with(text, "https://"@)
}

/// The request that shares `text` when it names no existing file.
pub open spec fn content_request(text: Seq<char>, peer_id: Option<Seq<char>>) -> RequestView {
    if is_web_url(text) {
        RequestView::SubmitUrl { url: text, peer_id }
    } else {
        RequestView::SubmitText { text, peer_id }
    }
}

/// The request one content argument becomes. `uri_target_exists` is whether
/// the path a `file:` URI names exists as a file or directory; `local_file`
/// is the path the argument names relative to the working directory, when a
/// working directory applies and that path exists.
pub open spec fn request_spec(
    text: Seq<char>,
    local_file: Option<Seq<char>>,
    uri_target_exists: bool,
    peer_id: Option<Seq<char>>,
) -> Result<RequestView, crate::uri::UriError> {
    match crate::uri::file_uri_target(text) {
        Err(e) => Err(e),
        Ok(Some(path)) => if uri_target_exists {
            Ok(RequestView::SubmitFile { path: vstd::utf8::decode_utf8(path), peer_id })
        } else {
            Err(crate::uri::UriError::MissingPath)
        },
        Ok(None) => match local_file {
            Some(file) => Ok(RequestView::SubmitFile { path: file, peer_id }),
            None => Ok(content_request(text, peer_id)),
        },
    }
}

/// The view of a classified request.
pub open spec fn classified_view(
    r: Result<ControlRequest, crate::uri::UriError>,
) -> Result<RequestView, crate::uri::UriError> {
    match r {
        Ok(q) => Ok(q@),
        Err(e) => Err(e),
    }
}

/// Classifies one content argument for a chosen peer without contacting the
/// local endpoint: a local file URI or existing path becomes a file share,
/// `http://` or `https://` a URL, anything else text.
pub fn request_for_peer(
    text: &str,
    local_file: Option<String>,
    uri_target_exists: bool,
    peer_id: Option<String>,
) -> (r: Result<ControlRequest, crate::uri::UriError>)
    ensures
        classified_view(r) == request_spec(text@, opt_view(local_file), uri_target_exists, opt_view(peer_id)),
{
    match crate::uri::file_uri_path(text) {
        Err(e) => Err(e),
        Ok(Some(path)) => if uri_target_exists {
            Ok(ControlRequest::SubmitFile { path, peer_id })
        } else {
            Err(crate::uri::UriError::MissingPath)
        },
        Ok(None) => match local_file {
            Some(file) => Ok(ControlRequest::SubmitFile { path: file, peer_id }),
            None => if str_starts_with(text, "http://") || str_starts_with(text, "https://") {
                Ok(ControlRequest::SubmitUrl { url: owned(text), peer_id })
            } else {
                Ok(ControlRequest::SubmitText { text: owned(text), peer_id })
            },
        },
    }
}

/// Classifies one content argument with no chosen peer.
pub fn request(
    text: &str,
    local_file: Option<String>,
    uri_target_exists: bool,
) -> (r: Result<ControlRequest, crate::uri::UriError>)
    ensures
        classified_view(r) == request_spec(text@, opt_view(local_file), uri_target_exists, None),
{
    request_for_peer(text, local_file, uri_target_exists, None)
}

/// Content that names no file is shared exactly as it was given, and a chosen
/// peer travels in the same request: the text or URL carries the argument
/// unchanged, whatever peer is chosen.
pub proof fn lemma_content_kept_with_peer(
    text: Seq<char>,
    uri_target_exists: bool,
    peer_id: Option<Seq<char>>,
)
    requires
        crate::uri::file_uri_target(text) == Ok::<Option<Seq<u8>>, crate::uri::UriError>(None),
    ensures
        request_spec(text, None, uri_target_exists, peer_id) == Ok::<RequestView, crate::uri::UriError>(content_request(text, peer_id)),
        match content_request(text, peer_id) {
            RequestView::SubmitUrl { url, peer_id: p } => url == text && p == peer_id && is_web_url(text),
            RequestView::SubmitText { text: t, peer_id: p } => t == text && p == peer_id && !is_web_url(text),
            _ => false,
        },
{
}

/// The decimal digits of a number are ASCII digits, at least one.
proof fn lemma_decimal_is_digits(n: nat)
    ensures
        decimal(n).len() >= 1,
        forall|i: int| 0 <= i < decimal(n).len() ==> '0' <= #[trigger] decimal(n)[i] <= '9',
    decreases n,
{
    if n < 10 {
        assert('0' <= digit_char(n) <= '9');
    } else {
        lemma_decimal_is_digits(n / 10);
        assert('0' <= digit_char(n % 10) <= '9');
        let d = decimal(n);
        assert forall|i: int| 0 <= i < d.len() implies '0' <= #[trigger] d[i] <= '9' by {
            if i < d.len() - 1 {
                assert(d[i] == decimal(n / 10)[i]);
            }
        }
    }
}

/// The byte of a decimal digit character is `48` more than the digit.
proof fn lemma_digit_byte(k: nat)
    requires
        k < 10,
    ensures
        digit_char(k) as u8 == 48 + k,
{
    let c = digit_char(k);
    assert(c as u32 == 48 + k);
    assert(c as u8 == 48 + k);
}

/// The UTF-8 bytes of the decimal digits of `n` read back as `n`.
proof fn lemma_decimal_bytes_value(n: nat)
    ensures
        encode_utf8(decimal(n)).len() == decimal(n).len(),
        all_digits(encode_utf8(decimal(n))),
        encode_utf8(decimal(n))[0] != 43u8,
        digits_value(encode_utf8(decimal(n))) == n,
    decreases n,
{
    lemma_decimal_is_digits(n);
    let d = decimal(n);
    assert forall|i: int| 0 <= i < d.len() implies '\0' <= #[trigger] d[i] <= '\u{7f}' by {
        assert('0' <= d[i] <= '9');
    }
    assert(vstd::utf8::is_ascii_chars(d));
    vstd::utf8::is_ascii_chars_encode_utf8(d);
    let b = encode_utf8(d);
    assert forall|i: int| 0 <= i < b.len() implies is_digit(#[trigger] b[i]) by {
        assert(d[i] as u8 == b[i]);
        assert('0' <= d[i] <= '9');
    }
    assert(d[0] as u8 == b[0]);
    if n < 10 {
        assert(b.drop_last() =~= Seq::<u8>::empty());
        lemma_digit_byte(n);
        assert(b.last() == d[0] as u8);
        assert(digits_value(Seq::<u8>::empty()) == 0);
        assert(digits_value(b) == digits_value(b.drop_last()) * 10 + (b.last() - 48));
    } else {
        lemma_decimal_bytes_value(n / 10);
        let p = decimal(n / 10);
        lemma_decimal_is_digits(n / 10);
        assert forall|i: int| 0 <= i < p.len() implies '\0' <= #[trigger] p[i] <= '\u{7f}' by {
            assert('0' <= p[i] <= '9');
        }
        assert(vstd::utf8::is_ascii_chars(p));
        vstd::utf8::is_ascii_chars_encode_utf8(p);
        assert(b.drop_last() =~= encode_utf8(p)) by {
            assert forall|i: int| 0 <= i < p.len() implies b.drop_last()[i] == encode_utf8(p)[i] by {
                assert(d[i] == p[i]);
                assert(d[i] as u8 == b[i]);
                assert(p[i] as u8 == encode_utf8(p)[i]);
            }
        }
        assert(b.last() == d[d.len() - 1] as u8);
        assert(d[d.len() - 1] == digit_char(n % 10));
        lemma_digit_byte(n % 10);
        assert(digits_value(b) == digits_value(b.drop_last()) * 10 + (b.last() - 48));
        assert(digits_value(b) == (n / 10) * 10 + n % 10);
    }
}

/// Every `u64` written in decimal reads back as itself: the number parser
/// inverts decimal writing.
pub proof fn lemma_decimal_reads_back(n: u64)
    ensures
        parse_u64_spec(encode_utf8(decimal(n as nat))) == Some(n),
{
    lemma_decimal_bytes_value(n as nat);
    let b = encode_utf8(decimal(n as nat));
    assert(unsigned_digits(b) == b);
}

/// Each share flag makes the request it names for the share written after
/// it: `--accept n`, `--reject n`, `--cancel n` and `--dismiss n` accept,
/// reject, cancel and dismiss share `n`, and `--send-to n peer` selects
/// `peer` for share `n`, for every `u64` share identifier.
pub proof fn lemma_share_flags_name_their_request(n: u64, peer: Seq<char>, simulation_allowed: bool)
    ensures
        action_request_spec(seq!["--accept"@, decimal(n as nat)], simulation_allowed)
            == Ok::<Option<RequestView>, ArgumentError>(Some(RequestView::Accept { share_id: n })),
        action_request_spec(seq!["--reject"@, decimal(n as nat)], simulation_allowed)
            == Ok::<Option<RequestView>, ArgumentError>(Some(RequestView::Reject { share_id: n })),
        action_request_spec(seq!["--cancel"@, decimal(n as nat)], simulation_allowed)
            == Ok::<Option<RequestView>, ArgumentError>(Some(RequestView::Cancel { share_id: n })),
        action_request_spec(seq!["--dismiss"@, decimal(n as nat)], simulation_allowed)
            == Ok::<Option<RequestView>, ArgumentError>(Some(RequestView::Dismiss { share_id: n })),
        action_request_spec(seq!["--send-to"@, decimal(n as nat), peer], simulation_allowed)
            == Ok::<Option<RequestView>, ArgumentError>(Some(RequestView::SelectPeer { share_id: n, peer_id: peer })),
{
    lemma_decimal_reads_back(n);
    lemma_flag_words_differ();
    let s = decimal(n as nat);
    assert(seq!["--reject"@, s][0] == "--reject"@);
    assert(seq!["--cancel"@, s][0] == "--cancel"@);
    assert(seq!["--dismiss"@, s][0] == "--dismiss"@);
    assert(seq!["--accept"@, s][0] == "--accept"@);
    assert(seq!["--send-to"@, s, peer][0] == "--send-to"@);
}

/// Each share flag makes only its own request: whatever follows
/// `--reject`, the result is a reject of the share it reads or a refusal of
/// the number, never an accept; and likewise for `--accept`, `--cancel`
/// and `--dismiss`.
pub proof fn lemma_share_flags_make_only_their_request(arg: Seq<char>, simulation_allowed: bool)
    ensures
        match action_request_spec(seq!["--reject"@, arg], simulation_allowed) {
            Ok(Some(RequestView::Reject { share_id })) => parse_u64_spec(encode_utf8(arg)) == Some(share_id),
            Err(ArgumentError::InvalidNumber(NumberField::ShareId)) => parse_u64_spec(encode_utf8(arg)) is None,
            _ => false,
        },
        match action_request_spec(seq!["--accept"@, arg], simulation_allowed) {
            Ok(Some(RequestView::Accept { share_id })) => parse_u64_spec(encode_utf8(arg)) == Some(share_id),
            Err(ArgumentError::InvalidNumber(NumberField::ShareId)) => parse_u64_spec(encode_utf8(arg)) is None,
            _ => false,
        },
        match action_request_spec(seq!["--cancel"@, arg], simulation_allowed) {
            Ok(Some(RequestView::Cancel { share_id })) => parse_u64_spec(encode_utf8(arg)) == Some(share_id),
            Err(ArgumentError::InvalidNumber(NumberField::ShareId)) => parse_u64_spec(encode_utf8(arg)) is None,
            _ => false,
        },
        match action_request_spec(seq!["--dismiss"@, arg], simulation_allowed) {
            Ok(Some(RequestView::Dismiss { share_id })) => parse_u64_spec(encode_utf8(arg)) == Some(share_id),
            Err(ArgumentError::InvalidNumber(NumberField::ShareId)) => parse_u64_spec(encode_utf8(arg)) is None,
            _ => false,
        },
{
    lemma_flag_words_differ();
}

/// The flag words are told apart by their length or one character, and
/// only the simulator flags begin with `--simulate-`.
proof fn lemma_flag_words_differ()
    ensures
        "--close-visibility"@.len() == 18,
        "--discover"@.len() == 10,
        "--open-visibility"@.len() == 17,
        "--pin"@.len() == 5,
        "--stop-discovery"@.len() == 16,
        "--unpin"@.len() == 7,
        "--accept"@.len() == 8,
        "--cancel"@.len() == 8,
        "--dismiss"@.len() == 9,
        "--reject"@.len() == 8,
        "--send-to"@.len() == 9,
        "--simulate-discovery-timeout"@.len() == 28,
        "--simulate-fail"@.len() == 15,
        "--simulate-incoming-file"@.len() == 24,
        "--simulate-incoming-text"@.len() == 24,
        "--simulate-incoming-url"@.len() == 23,
        "--simulate-peer-accept"@.len() == 22,
        "--simulate-peer-lost"@.len() == 20,
        "--simulate-peer-reject"@.len() == 22,
        "--simulate-peer-seen"@.len() == 20,
        "--simulate-progress"@.len() == 19,
        "--simulate-"@.len() == 11,
        "--simulate-incoming-file"@[20] == 'f' && "--simulate-incoming-text"@[20] == 't',
        "--simulate-peer-accept"@[16] == 'a' && "--simulate-peer-reject"@[16] == 'r',
        "--simulate-peer-lost"@[16] == 'l' && "--simulate-peer-seen"@[16] == 's',
        "--accept"@[2] == 'a' && "--cancel"@[2] == 'c' && "--reject"@[2] == 'r',
        "--dismiss"@[2] == 'd' && "--send-to"@[2] == 's',
        seq_starts_with("--simulate-discovery-timeout"@, "--simulate-"@),
        seq_starts_with("--simulate-fail"@, "--simulate-"@),
        seq_starts_with("--simulate-incoming-file"@, "--simulate-"@),
        seq_starts_with("--simulate-incoming-text"@, "--simulate-"@),
        seq_starts_with("--simulate-incoming-url"@, "--simulate-"@),
        seq_starts_with("--simulate-peer-accept"@, "--simulate-"@),
        seq_starts_with("--simulate-peer-lost"@, "--simulate-"@),
        seq_starts_with("--simulate-peer-reject"@, "--simulate-"@),
        seq_starts_with("--simulate-peer-seen"@, "--simulate-"@),
        seq_starts_with("--simulate-progress"@, "--simulate-"@),
        !seq_starts_with("--close-visibility"@, "--simulate-"@),
        !seq_starts_with("--discover"@, "--simulate-"@),
        !seq_starts_with("--open-visibility"@, "--simulate-"@),
        !seq_starts_with("--pin"@, "--simulate-"@),
        !seq_starts_with("--stop-discovery"@, "--simulate-"@),
        !seq_starts_with("--unpin"@, "--simulate-"@),
        !seq_starts_with("--accept"@, "--simulate-"@),
        !seq_starts_with("--cancel"@, "--simulate-"@),
        !seq_starts_with("--dismiss"@, "--simulate-"@),
        !seq_starts_with("--reject"@, "--simulate-"@),
        !seq_starts_with("--send-to"@, "--simulate-"@),
{
    reveal_strlit("--close-visibility");
    reveal_strlit("--discover");
    reveal_strlit("--open-visibility");
    reveal_strlit("--pin");
    reveal_strlit("--stop-discovery");
    reveal_strlit("--unpin");
    reveal_strlit("--accept");
    reveal_strlit("--cancel");
    reveal_strlit("--dismiss");
    reveal_strlit("--reject");
    reveal_strlit("--send-to");
    reveal_strlit("--simulate-discovery-timeout");
    reveal_strlit("--simulate-fail");
    reveal_strlit("--simulate-incoming-file");
    reveal_strlit("--simulate-incoming-text");
    reveal_strlit("--simulate-incoming-url");
    reveal_strlit("--simulate-peer-accept");
    reveal_strlit("--simulate-peer-lost");
    reveal_strlit("--simulate-peer-reject");
    reveal_strlit("--simulate-peer-seen");
    reveal_strlit("--simulate-progress");
    reveal_strlit("--simulate-");
    assert("--simulate-discovery-timeout"@.take(11) =~= "--simulate-"@);
    assert("--simulate-fail"@.take(11) =~= "--simulate-"@);
    assert("--simulate-incoming-file"@.take(11) =~= "--simulate-"@);
    assert("--simulate-incoming-text"@.take(11) =~= "--simulate-"@);
    assert("--simulate-incoming-url"@.take(11) =~= "--simulate-"@);
    assert("--simulate-peer-accept"@.take(11) =~= "--simulate-"@);
    assert("--simulate-peer-lost"@.take(11) =~= "--simulate-"@);
    assert("--simulate-peer-reject"@.take(11) =~= "--simulate-"@);
    assert("--simulate-peer-seen"@.take(11) =~= "--simulate-"@);
    assert("--simulate-progress"@.take(11) =~= "--simulate-"@);
    assert("--close-visibility"@[2] != "--simulate-"@[2]);
    assert("--open-visibility"@[2] != "--simulate-"@[2]);
    assert("--stop-discovery"@[3] != "--simulate-"@[3]);
    assert("--discover"@[2] != "--simulate-"@[2]);
}

/// The flags without a share identifier make the request they name:
/// `--close-visibility`, `--discover`, `--open-visibility`, `--pin peer`,
/// `--stop-discovery` and `--unpin`.
pub proof fn lemma_plain_flags_name_their_request(peer: Seq<char>, simulation_allowed: bool)
    ensures
        action_request_spec(seq!["--close-visibility"@], simulation_allowed)
            == Ok::<Option<RequestView>, ArgumentError>(Some(RequestView::CloseVisibility)),
        action_request_spec(seq!["--discover"@], simulation_allowed)
            == Ok::<Option<RequestView>, ArgumentError>(Some(RequestView::Discover)),
        action_request_spec(seq!["--open-visibility"@], simulation_allowed)
            == Ok::<Option<RequestView>, ArgumentError>(Some(RequestView::OpenVisibility)),
        action_request_spec(seq!["--pin"@, peer], simulation_allowed)
            == Ok::<Option<RequestView>, ArgumentError>(Some(RequestView::PinPeer { peer_id: peer })),
        action_request_spec(seq!["--stop-discovery"@], simulation_allowed)
            == Ok::<Option<RequestView>, ArgumentError>(Some(RequestView::StopDiscovery)),
        action_request_spec(seq!["--unpin"@], simulation_allowed)
            == Ok::<Option<RequestView>, ArgumentError>(Some(RequestView::UnpinPeer)),
{
    lemma_flag_words_differ();
    assert(seq!["--close-visibility"@][0] == "--close-visibility"@);
    assert(seq!["--discover"@][0] == "--discover"@);
    assert(seq!["--open-visibility"@][0] == "--open-visibility"@);
    assert(seq!["--stop-discovery"@][0] == "--stop-discovery"@);
    assert(seq!["--unpin"@][0] == "--unpin"@);
    assert(seq!["--pin"@, peer][0] == "--pin"@);
}

/// With simulation allowed, each simulator flag makes the simulator request
/// it names from the values written after it, for every `u64` identifier
/// and count; without it, every simulator flag is refused as unavailable.
pub proof fn lemma_simulation_flags_name_their_request(
    n: u64,
    m: u64,
    a: Seq<char>,
    b: Seq<char>,
    rest: Seq<Seq<char>>,
    word: Seq<char>,
)
    ensures
        action_request_spec(seq!["--simulate-discovery-timeout"@], true)
            == Ok::<Option<RequestView>, ArgumentError>(Some(RequestView::SimulateDiscoveryTimeout)),
        action_request_spec(seq!["--simulate-fail"@, decimal(n as nat)], true)
            == Ok::<Option<RequestView>, ArgumentError>(Some(RequestView::SimulateFail { share_id: n })),
        action_request_spec(seq!["--simulate-incoming-file"@, a, decimal(m as nat)], true)
            == Ok::<Option<RequestView>, ArgumentError>(Some(RequestView::SimulateIncomingFile { name: a, size_bytes: m })),
        action_request_spec(seq!["--simulate-incoming-text"@, a], true)
            == Ok::<Option<RequestView>, ArgumentError>(Some(RequestView::SimulateIncomingText { text: a })),
        action_request_spec(seq!["--simulate-incoming-url"@, a], true)
            == Ok::<Option<RequestView>, ArgumentError>(Some(RequestView::SimulateIncomingUrl { url: a })),
        action_request_spec(seq!["--simulate-peer-accept"@, decimal(n as nat)], true)
            == Ok::<Option<RequestView>, ArgumentError>(Some(RequestView::SimulatePeerAccept { share_id: n })),
        action_request_spec(seq!["--simulate-peer-lost"@, a], true)
            == Ok::<Option<RequestView>, ArgumentError>(Some(RequestView::SimulatePeerLost { peer_id: a })),
        action_request_spec(seq!["--simulate-peer-reject"@, decimal(n as nat)], true)
            == Ok::<Option<RequestView>, ArgumentError>(Some(RequestView::SimulatePeerReject { share_id: n })),
        action_request_spec(seq!["--simulate-peer-seen"@, a, b], true)
            == Ok::<Option<RequestView>, ArgumentError>(Some(RequestView::SimulatePeerSeen { peer_id: a, name: b })),
        action_request_spec(seq!["--simulate-progress"@, decimal(n as nat), decimal(m as nat)], true)
            == Ok::<Option<RequestView>, ArgumentError>(
                Some(RequestView::SimulateProgress { share_id: n, transferred_bytes: m }),
            ),
        seq_starts_with(word, "--simulate-"@) ==> action_request_spec(seq![word] + rest, false)
            == Err::<Option<RequestView>, ArgumentError>(ArgumentError::SimulationUnavailable),
{
    lemma_flag_words_differ();
    lemma_decimal_reads_back(n);
    lemma_decimal_reads_back(m);
    let dn = decimal(n as nat);
    let dm = decimal(m as nat);
    assert(seq!["--simulate-discovery-timeout"@][0] == "--simulate-discovery-timeout"@);
    assert(seq!["--simulate-fail"@, dn][0] == "--simulate-fail"@);
    assert(seq!["--simulate-incoming-file"@, a, dm][0] == "--simulate-incoming-file"@);
    assert(seq!["--simulate-incoming-text"@, a][0] == "--simulate-incoming-text"@);
    assert(seq!["--simulate-incoming-url"@, a][0] == "--simulate-incoming-url"@);
    assert(seq!["--simulate-peer-accept"@, dn][0] == "--simulate-peer-accept"@);
    assert(seq!["--simulate-peer-lost"@, a][0] == "--simulate-peer-lost"@);
    assert(seq!["--simulate-peer-reject"@, dn][0] == "--simulate-peer-reject"@);
    assert(seq!["--simulate-peer-seen"@, a, b][0] == "--simulate-peer-seen"@);
    assert(seq!["--simulate-progress"@, dn, dm][0] == "--simulate-progress"@);
    if seq_starts_with(word, "--simulate-"@) {
        let args = seq![word] + rest;
        assert(args[0] == word);
        assert(word != "--close-visibility"@);
        assert(word != "--discover"@);
        assert(word != "--open-visibility"@);
        assert(word != "--pin"@);
        assert(word != "--stop-discovery"@);
        assert(word != "--unpin"@);
        assert(word != "--accept"@);
        assert(word != "--cancel"@);
        assert(word != "--dismiss"@);
        assert(word != "--reject"@);
        assert(word != "--send-to"@);
    }
}

/// A first word that is none of the flags names no flag command, whatever
/// follows it.
pub proof fn lemma_other_words_name_no_request(word: Seq<char>, rest: Seq<Seq<char>>, simulation_allowed: bool)
    requires
        word != "--accept"@,
        word != "--cancel"@,
        word != "--close-visibility"@,
        word != "--discover"@,
        word != "--dismiss"@,
        word != "--open-visibility"@,
        word != "--pin"@,
        word != "--reject"@,
        word != "--send-to"@,
        word != "--stop-discovery"@,
        word != "--unpin"@,
        !seq_starts_with(word, "--simulate-"@),
    ensures
        action_request_spec(seq![word] + rest, simulation_allowed) == Ok::<Option<RequestView>, ArgumentError>(None),
{
    assert((seq![word] + rest)[0] == word);
}

} // verus!
