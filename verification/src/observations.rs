//! Privacy-safe observations: public reason codes, recovery guidance,
//! notification summaries, and transfer estimates.

use vstd::prelude::*;
use crate::clock::{MAX_NANOS, NANOS_PER_SEC};
use crate::text::str_eq;

verus! {

/// Estimated seconds left at the observed throughput: `None` before any
/// byte or whole second was observed, or when more bytes than the total
/// were reported.
pub open spec fn remaining_seconds_spec(transferred: u64, total: u64, elapsed_secs: u64) -> Option<u64> {
    if transferred == 0 || elapsed_secs == 0 || transferred > total {
        None
    } else {
        let product: int = (total - transferred) * elapsed_secs;
        let saturated: int = if product > u64::MAX { u64::MAX as int } else { product };
        Some((saturated / transferred as int) as u64)
    }
}

/// Estimates remaining seconds from observed throughput; `elapsed` is in
/// nanoseconds and counts in whole seconds.
pub fn remaining_seconds(transferred: u64, total: u64, elapsed: u128) -> (r: Option<u64>)
    requires
        elapsed <= MAX_NANOS,
    ensures
        r == remaining_seconds_spec(transferred, total, (elapsed / NANOS_PER_SEC) as u64),
{
    let elapsed_secs = (elapsed / NANOS_PER_SEC) as u64;
    if transferred == 0 || elapsed_secs == 0 || transferred > total {
        return None;
    }
    let left = total - transferred;
    let product = match left.checked_mul(elapsed_secs) {
        Some(p) => p,
        None => u64::MAX,
    };
    Some(product / transferred)
}

/// Recovery guidance for a public terminal reason.
pub open spec fn recovery_guidance_spec(reason: Seq<char>) -> Seq<char> {
    if reason == "cancelled"@ {
        "Submit the content again if you still want to send it."@
    } else if reason == "collision"@ {
        "Rename the inbound file or clear the receive directory."@
    } else if reason == "disconnected"@ {
        "Reconnect and send the share again."@
    } else if reason == "interrupted"@ {
        "Accept the share again to finish receiving."@
    } else if reason == "invalid_name"@ || reason == "invalid_payload"@ || reason == "unsupported"@ {
        "Send a file, text, or URL instead."@
    } else if reason == "mutation"@ {
        "Keep the outbound file unchanged until the share completes."@
    } else if reason == "quota"@ {
        "Free space in the receive directory and retry."@
    } else if reason == "rejected"@ {
        "Choose another peer or ask the receiver to accept."@
    } else if reason == "size_mismatch"@ {
        "Retry the share; the file size did not match."@
    } else if reason == "timed_out"@ {
        "Retry while both devices stay nearby."@
    } else {
        "Retry the share. Confirm the peer is nearby."@
    }
}

/// Returns recovery guidance for a public terminal reason.
pub fn recovery_guidance(reason: &str) -> (r: &'static str)
    ensures
        r@ == recovery_guidance_spec(reason@),
{
    if str_eq(reason, "cancelled") {
        "Submit the content again if you still want to send it."
    } else if str_eq(reason, "collision") {
        "Rename the inbound file or clear the receive directory."
    } else if str_eq(reason, "disconnected") {
        "Reconnect and send the share again."
    } else if str_eq(reason, "interrupted") {
        "Accept the share again to finish receiving."
    } else if str_eq(reason, "invalid_name") || str_eq(reason, "invalid_payload") || str_eq(reason, "unsupported") {
        "Send a file, text, or URL instead."
    } else if str_eq(reason, "mutation") {
        "Keep the outbound file unchanged until the share completes."
    } else if str_eq(reason, "quota") {
        "Free space in the receive directory and retry."
    } else if str_eq(reason, "rejected") {
        "Choose another peer or ask the receiver to accept."
    } else if str_eq(reason, "size_mismatch") {
        "Retry the share; the file size did not match."
    } else if str_eq(reason, "timed_out") {
        "Retry while both devices stay nearby."
    } else {
        "Retry the share. Confirm the peer is nearby."
    }
}

/// Operating-system I/O failure classes, as `std::io::ErrorKind` names them.
#[derive(Clone, Copy, Debug, PartialEq, Eq, Structural)]
pub enum IoErrorKind {
    NotFound,
    PermissionDenied,
    ConnectionRefused,
    ConnectionReset,
    ConnectionAborted,
    NotConnected,
    AddrInUse,
    AddrNotAvailable,
    BrokenPipe,
    AlreadyExists,
    WouldBlock,
    InvalidInput,
    InvalidData,
    TimedOut,
    WriteZero,
    UnexpectedEof,
    OutOfMemory,
    /// Any other class.
    Other,
}

/// Maps an I/O failure class to a privacy-safe stable name.
pub fn io_error_kind(kind: IoErrorKind) -> (r: &'static str)
    ensures
        r@ == io_error_kind_spec(kind),
{
    match kind {
        IoErrorKind::NotFound => "not_found",
        IoErrorKind::PermissionDenied => "permission_denied",
        IoErrorKind::ConnectionRefused => "connection_refused",
        IoErrorKind::ConnectionReset => "connection_reset",
        IoErrorKind::ConnectionAborted => "connection_aborted",
        IoErrorKind::NotConnected => "not_connected",
        IoErrorKind::AddrInUse => "address_in_use",
        IoErrorKind::AddrNotAvailable => "address_unavailable",
        IoErrorKind::BrokenPipe => "broken_pipe",
        IoErrorKind::AlreadyExists => "already_exists",
        IoErrorKind::WouldBlock => "would_block",
        IoErrorKind::InvalidInput => "invalid_input",
        IoErrorKind::InvalidData => "invalid_data",
        IoErrorKind::TimedOut => "timed_out",
        IoErrorKind::WriteZero => "write_zero",
        IoErrorKind::UnexpectedEof => "unexpected_eof",
        IoErrorKind::OutOfMemory => "out_of_memory",
        IoErrorKind::Other => "other",
    }
}

/// The stable name of an I/O failure class.
pub open spec fn io_error_kind_spec(kind: IoErrorKind) -> Seq<char> {
    match kind {
        IoErrorKind::NotFound => "not_found"@,
        IoErrorKind::PermissionDenied => "permission_denied"@,
        IoErrorKind::ConnectionRefused => "connection_refused"@,
        IoErrorKind::ConnectionReset => "connection_reset"@,
        IoErrorKind::ConnectionAborted => "connection_aborted"@,
        IoErrorKind::NotConnected => "not_connected"@,
        IoErrorKind::AddrInUse => "address_in_use"@,
        IoErrorKind::AddrNotAvailable => "address_unavailable"@,
        IoErrorKind::BrokenPipe => "broken_pipe"@,
        IoErrorKind::AlreadyExists => "already_exists"@,
        IoErrorKind::WouldBlock => "would_block"@,
        IoErrorKind::InvalidInput => "invalid_input"@,
        IoErrorKind::InvalidData => "invalid_data"@,
        IoErrorKind::TimedOut => "timed_out"@,
        IoErrorKind::WriteZero => "write_zero"@,
        IoErrorKind::UnexpectedEof => "unexpected_eof"@,
        IoErrorKind::OutOfMemory => "out_of_memory"@,
        IoErrorKind::Other => "other"@,
    }
}

/// Storage failure classes reported while staging or committing files.
#[derive(Clone, Copy, Debug, PartialEq, Eq, Structural)]
pub enum StorageFailure {
    Collision,
    Interrupted,
    InvalidName,
    InvalidSource,
    Mutation,
    Quota,
    SizeMismatch,
    /// An operating-system I/O failure.
    Io,
    /// Any other storage failure.
    Other,
}

/// Maps a storage failure to a stable snake_case reason.
pub fn storage_reason(failure: StorageFailure) -> (r: &'static str)
    ensures
        r@ == storage_reason_spec(failure),
{
    match failure {
        StorageFailure::Collision => "collision",
        StorageFailure::Interrupted => "interrupted",
        StorageFailure::InvalidName => "invalid_name",
        StorageFailure::InvalidSource => "invalid_source",
        StorageFailure::Mutation => "mutation",
        StorageFailure::Quota => "quota",
        StorageFailure::SizeMismatch => "size_mismatch",
        StorageFailure::Io => "io",
        StorageFailure::Other => "failed",
    }
}

/// The stable reason of a storage failure.
pub open spec fn storage_reason_spec(failure: StorageFailure) -> Seq<char> {
    match failure {
        StorageFailure::Collision => "collision"@,
        StorageFailure::Interrupted => "interrupted"@,
        StorageFailure::InvalidName => "invalid_name"@,
        StorageFailure::InvalidSource => "invalid_source"@,
        StorageFailure::Mutation => "mutation"@,
        StorageFailure::Quota => "quota"@,
        StorageFailure::SizeMismatch => "size_mismatch"@,
        StorageFailure::Io => "io"@,
        StorageFailure::Other => "failed"@,
    }
}

/// Terminal notification classes that never include share content.
#[derive(Clone, Copy, Debug, PartialEq, Eq, Structural)]
pub enum NotifyKind {
    /// An outbound share completed.
    Sent,
    /// An inbound share completed.
    Received,
    /// A share failed after an error.
    Error,
}

/// The public notification summary for a kind.
pub open spec fn summary_spec(kind: NotifyKind) -> Seq<char> {
    match kind {
        NotifyKind::Sent => "Share sent"@,
        NotifyKind::Received => "Share received"@,
        NotifyKind::Error => "Share failed"@,
    }
}

/// Returns the public notification summary for `kind`.
pub fn summary(kind: NotifyKind) -> (r: &'static str)
    ensures
        r@ == summary_spec(kind),
{
    match kind {
        NotifyKind::Sent => "Share sent",
        NotifyKind::Received => "Share received",
        NotifyKind::Error => "Share failed",
    }
}

/// Public share lifecycle phase.
#[derive(Clone, Copy, Debug, PartialEq, Eq, Structural)]
pub enum Phase {
    /// Outbound, waiting for a peer to be chosen.
    WaitingForPeer,
    /// Inbound, waiting for the local user to accept or reject.
    AwaitingLocalConsent,
    /// Outbound, waiting for the peer to accept.
    AwaitingPeerConsent,
    /// Bytes are moving.
    Transferring,
    /// Delivered.
    Completed,
    /// Cancelled by either side.
    Cancelled,
    /// Ended by an error or a deadline.
    Failed,
    /// Refused by the receiver.
    Rejected,
}

/// A completion notice fires only for a recorded, successfully completed share.
pub fn completion_notice(recorded: bool, phase: Phase) -> (r: bool)
    ensures
        r == (recorded && phase == Phase::Completed),
{
    recorded && matches!(phase, Phase::Completed)
}

/// The user-facing reason and recovery hint for a terminal phase.
pub open spec fn terminal_guidance_spec(phase: Phase) -> Option<(Seq<char>, Seq<char>)> {
    match phase {
        Phase::Cancelled => Some(("share cancelled"@,
            "Submit the content again if you still want to send it."@)),
        Phase::Failed => Some(("transfer failed"@,
            "Retry the share. Confirm the peer is nearby and the receive directory is writable."@)),
        Phase::Rejected => Some(("share rejected"@,
            "Choose another peer or ask the receiver to accept."@)),
        _ => None,
    }
}

/// Returns a user-facing reason and recovery hint for a terminal phase.
pub fn terminal_guidance(phase: Phase) -> (r: Option<(&'static str, &'static str)>)
    ensures
        match r {
            Some((reason, hint)) => terminal_guidance_spec(phase) == Some((reason@, hint@)),
            None => terminal_guidance_spec(phase) is None,
        },
{
    match phase {
        Phase::Cancelled => Some(("share cancelled",
            "Submit the content again if you still want to send it.")),
        Phase::Failed => Some(("transfer failed",
            "Retry the share. Confirm the peer is nearby and the receive directory is writable.")),
        Phase::Rejected => Some(("share rejected",
            "Choose another peer or ask the receiver to accept.")),
        _ => None,
    }
}

/// Whether `reason` is one of the public terminal reasons that have their
/// own guidance.
pub open spec fn is_guided_reason(reason: Seq<char>) -> bool {
    reason == "cancelled"@
        || reason == "collision"@
        || reason == "disconnected"@
        || reason == "interrupted"@
        || reason == "invalid_name"@
        || reason == "invalid_payload"@
        || reason == "unsupported"@
        || reason == "mutation"@
        || reason == "quota"@
        || reason == "rejected"@
        || reason == "size_mismatch"@
        || reason == "timed_out"@
}

/// Whether `reason` says the content itself could not be sent.
pub open spec fn is_unsendable_content(reason: Seq<char>) -> bool {
    reason == "invalid_name"@ || reason == "invalid_payload"@ || reason == "unsupported"@
}

/// The reason words and the guidance texts are told apart by their length
/// or one character.
proof fn lemma_guidance_words_differ()
    ensures
        "cancelled"@.len() == 9,
        "collision"@.len() == 9,
        "disconnected"@.len() == 12,
        "interrupted"@.len() == 11,
        "invalid_name"@.len() == 12,
        "invalid_payload"@.len() == 15,
        "unsupported"@.len() == 11,
        "mutation"@.len() == 8,
        "quota"@.len() == 5,
        "rejected"@.len() == 8,
        "size_mismatch"@.len() == 13,
        "timed_out"@.len() == 9,
        "cancelled"@[1] == 'a' && "collision"@[1] == 'o' && "timed_out"@[1] == 'i',
        "disconnected"@[0] == 'd' && "invalid_name"@[0] == 'i',
        "interrupted"@[0] == 'i' && "unsupported"@[0] == 'u',
        "mutation"@[0] == 'm' && "rejected"@[0] == 'r',
        "Accept the share again to finish receiving."@.len() == 43,
        "Choose another peer or ask the receiver to accept."@.len() == 50,
        "Free space in the receive directory and retry."@.len() == 46,
        "Keep the outbound file unchanged until the share completes."@.len() == 59,
        "Reconnect and send the share again."@.len() == 35,
        "Rename the inbound file or clear the receive directory."@.len() == 55,
        "Retry the share; the file size did not match."@.len() == 45,
        "Retry while both devices stay nearby."@.len() == 37,
        "Send a file, text, or URL instead."@.len() == 34,
        "Submit the content again if you still want to send it."@.len() == 54,
        "Retry the share. Confirm the peer is nearby."@.len() == 44,
{
    reveal_strlit("cancelled");
    reveal_strlit("collision");
    reveal_strlit("disconnected");
    reveal_strlit("interrupted");
    reveal_strlit("invalid_name");
    reveal_strlit("invalid_payload");
    reveal_strlit("unsupported");
    reveal_strlit("mutation");
    reveal_strlit("quota");
    reveal_strlit("rejected");
    reveal_strlit("size_mismatch");
    reveal_strlit("timed_out");
    reveal_strlit("Accept the share again to finish receiving.");
    reveal_strlit("Choose another peer or ask the receiver to accept.");
    reveal_strlit("Free space in the receive directory and retry.");
    reveal_strlit("Keep the outbound file unchanged until the share completes.");
    reveal_strlit("Reconnect and send the share again.");
    reveal_strlit("Rename the inbound file or clear the receive directory.");
    reveal_strlit("Retry the share; the file size did not match.");
    reveal_strlit("Retry while both devices stay nearby.");
    reveal_strlit("Send a file, text, or URL instead.");
    reveal_strlit("Submit the content again if you still want to send it.");
    reveal_strlit("Retry the share. Confirm the peer is nearby.");
}

/// Each public terminal reason has the guidance written for it, and any
/// other reason gets the general retry hint.
pub proof fn lemma_guidance_for_each_reason(reason: Seq<char>)
    ensures
        reason == "cancelled"@ ==> recovery_guidance_spec(reason) == "Submit the content again if you still want to send it."@,
        reason == "collision"@ ==> recovery_guidance_spec(reason) == "Rename the inbound file or clear the receive directory."@,
        reason == "disconnected"@ ==> recovery_guidance_spec(reason) == "Reconnect and send the share again."@,
        reason == "interrupted"@ ==> recovery_guidance_spec(reason) == "Accept the share again to finish receiving."@,
        reason == "invalid_name"@ ==> recovery_guidance_spec(reason) == "Send a file, text, or URL instead."@,
        reason == "invalid_payload"@ ==> recovery_guidance_spec(reason) == "Send a file, text, or URL instead."@,
        reason == "unsupported"@ ==> recovery_guidance_spec(reason) == "Send a file, text, or URL instead."@,
        reason == "mutation"@ ==> recovery_guidance_spec(reason) == "Keep the outbound file unchanged until the share completes."@,
        reason == "quota"@ ==> recovery_guidance_spec(reason) == "Free space in the receive directory and retry."@,
        reason == "rejected"@ ==> recovery_guidance_spec(reason) == "Choose another peer or ask the receiver to accept."@,
        reason == "size_mismatch"@ ==> recovery_guidance_spec(reason) == "Retry the share; the file size did not match."@,
        reason == "timed_out"@ ==> recovery_guidance_spec(reason) == "Retry while both devices stay nearby."@,
        !is_guided_reason(reason) ==> recovery_guidance_spec(reason) == "Retry the share. Confirm the peer is nearby."@,
{
    lemma_guidance_words_differ();
}

/// Guidance tells reasons apart: two different reasons get the same text
/// only when both say the content could not be sent, or when neither is a
/// public reason with guidance of its own.
pub proof fn lemma_guidance_tells_reasons_apart(a: Seq<char>, b: Seq<char>)
    ensures
        recovery_guidance_spec(a) == recovery_guidance_spec(b) ==> a == b
            || (is_unsendable_content(a) && is_unsendable_content(b))
            || (!is_guided_reason(a) && !is_guided_reason(b)),
{
    lemma_guidance_words_differ();
    lemma_guidance_for_each_reason(a);
    lemma_guidance_for_each_reason(b);
}

} // verus!
