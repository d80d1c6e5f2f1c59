//! The command-line grammar of the local endpoint.
//!
//! `run` decides what one invocation asks for without touching the local
//! endpoint: help and version text are printed directly, and every other
//! command becomes an [`Invocation`] for the caller to carry out.

use vstd::prelude::*;
use vstd::utf8::encode_utf8;
use crate::request::{
    ArgumentError, ControlRequest, RequestView, action_request, action_request_spec, lemma_share_flags_name_their_request,
    parse_u64, parse_u64_spec, strings_view,
};
use crate::text::{chars_of, copy_range, decimal, owned, seq_starts_with, str_eq, str_starts_with, string_from_chars};

verus! {

/// Compact stderr log verbosity.
#[derive(Clone, Copy, Debug, PartialEq, Eq, Structural)]
pub enum LogLevel {
    /// Error events only.
    Error,
    /// Warnings and errors.
    Warn,
    /// Normal operational events.
    Info,
    /// Debugging detail.
    Debug,
    /// Most verbose tracing.
    Trace,
}

/// The filter directive of a log level.
pub open spec fn log_level_name(level: LogLevel) -> Seq<char> {
    match level {
        LogLevel::Error => "error"@,
        LogLevel::Warn => "warn"@,
        LogLevel::Info => "info"@,
        LogLevel::Debug => "debug"@,
        LogLevel::Trace => "trace"@,
    }
}

/// The log level a `--log-level` value names.
pub open spec fn log_level_named(name: Seq<char>) -> Option<LogLevel> {
    if name == "error"@ {
        Some(LogLevel::Error)
    } else if name == "warn"@ {
        Some(LogLevel::Warn)
    } else if name == "info"@ {
        Some(LogLevel::Info)
    } else if name == "debug"@ {
        Some(LogLevel::Debug)
    } else if name == "trace"@ {
        Some(LogLevel::Trace)
    } else {
        None
    }
}

impl LogLevel {
    /// Returns the logging filter directive for this level.
    pub fn as_str(self) -> (r: &'static str)
        ensures
            r@ == log_level_name(self),
    {
        match self {
            LogLevel::Debug => "debug",
            LogLevel::Error => "error",
            LogLevel::Info => "info",
            LogLevel::Trace => "trace",
            LogLevel::Warn => "warn",
        }
    }

    /// Reads a `--log-level` value.
    pub fn from_name(name: &str) -> (r: Option<LogLevel>)
        ensures
            r == log_level_named(name@),
    {
        if str_eq(name, "error") {
            Some(LogLevel::Error)
        } else if str_eq(name, "warn") {
            Some(LogLevel::Warn)
        } else if str_eq(name, "info") {
            Some(LogLevel::Info)
        } else if str_eq(name, "debug") {
            Some(LogLevel::Debug)
        } else if str_eq(name, "trace") {
            Some(LogLevel::Trace)
        } else {
            None
        }
    }
}

/// What one command-line invocation asks for.
#[derive(Debug)]
pub enum Invocation {
    /// Print this text to standard output; the endpoint is not contacted.
    Print(String),
    /// Run the local endpoint in this process.
    StartDaemon { simulate: bool, log_level: LogLevel },
    /// Print the effective settings.
    ShowConfig,
    /// Update one setting.
    SetConfig { key: String, value: String },
    /// Classify and queue content for sharing.
    Submit { content: String, peer: Option<String> },
    /// Confirm that the endpoint is running.
    Health,
    /// Print endpoint observations, as JSON when `json` is set.
    Status { json: bool },
    /// Send one state-changing request and report the answer.
    Control(ControlRequest),
}

/// An invocation with its strings as characters.
pub ghost enum InvocationView {
    Print(Seq<char>),
    StartDaemon { simulate: bool, log_level: LogLevel },
    ShowConfig,
    SetConfig { key: Seq<char>, value: Seq<char> },
    Submit { content: Seq<char>, peer: Option<Seq<char>> },
    Health,
    Status { json: bool },
    Control(RequestView),
}

impl View for Invocation {
    type V = InvocationView;

    open spec fn view(&self) -> InvocationView {
        match self {
            Invocation::Print(t) => InvocationView::Print(t@),
            Invocation::StartDaemon { simulate, log_level } => InvocationView::StartDaemon {
                simulate: *simulate,
                log_level: *log_level,
            },
            Invocation::ShowConfig => InvocationView::ShowConfig,
            Invocation::SetConfig { key, value } => InvocationView::SetConfig { key: key@, value: value@ },
            Invocation::Submit { content, peer } => InvocationView::Submit {
                content: content@,
                peer: match peer {
                    Some(p) => Some(p@),
                    None => None,
                },
            },
            Invocation::Health => InvocationView::Health,
            Invocation::Status { json } => InvocationView::Status { json: *json },
            Invocation::Control(q) => InvocationView::Control(q@),
        }
    }
}

/// Why the command line was refused.
#[derive(Debug)]
pub enum CliError {
    /// No command was given; the caller shows the help on stderr.
    MissingCommand,
    /// An option that the command does not take.
    UnknownArgument(String),
    /// A word that names no command.
    InvalidSubcommand(String),
    /// A command group was given without one of its commands.
    MissingSubcommand,
    /// A required value is missing.
    MissingArgument,
    /// A value the command does not take.
    UnexpectedArgument(String),
    /// An option that needs a value was the last word.
    MissingValue(String),
    /// An option was given twice.
    DuplicateOption(String),
    /// A value that does not fit its argument.
    InvalidValue(String),
    /// Simulator commands need a simulated daemon and explicit opt-in.
    SimulationUnavailable,
    /// A state-changing command in flag form (`--cancel 1`) was refused.
    FlagCommand(ArgumentError),
}

/// A command-line error with its strings as characters.
pub ghost enum CliErrorView {
    MissingCommand,
    UnknownArgument(Seq<char>),
    InvalidSubcommand(Seq<char>),
    MissingSubcommand,
    MissingArgument,
    UnexpectedArgument(Seq<char>),
    MissingValue(Seq<char>),
    DuplicateOption(Seq<char>),
    InvalidValue(Seq<char>),
    SimulationUnavailable,
    FlagCommand(ArgumentError),
}

impl View for CliError {
    type V = CliErrorView;

    open spec fn view(&self) -> CliErrorView {
        match self {
            CliError::MissingCommand => CliErrorView::MissingCommand,
            CliError::UnknownArgument(a) => CliErrorView::UnknownArgument(a@),
            CliError::InvalidSubcommand(a) => CliErrorView::InvalidSubcommand(a@),
            CliError::MissingSubcommand => CliErrorView::MissingSubcommand,
            CliError::MissingArgument => CliErrorView::MissingArgument,
            CliError::UnexpectedArgument(a) => CliErrorView::UnexpectedArgument(a@),
            CliError::MissingValue(a) => CliErrorView::MissingValue(a@),
            CliError::DuplicateOption(a) => CliErrorView::DuplicateOption(a@),
            CliError::InvalidValue(a) => CliErrorView::InvalidValue(a@),
            CliError::SimulationUnavailable => CliErrorView::SimulationUnavailable,
            CliError::FlagCommand(e) => CliErrorView::FlagCommand(*e),
        }
    }
}

/// The view of an invocation result.
pub open spec fn invocation_result_view(r: Result<Invocation, CliError>) -> Result<InvocationView, CliErrorView> {
    match r {
        Ok(i) => Ok(i@),
        Err(e) => Err(e@),
    }
}

/// The top-level help text.
pub open spec fn top_help() -> Seq<char> {
    "Account-free Quick Share for Omarchy\n\nUsage: omarchy-quickshare <COMMAND>\n\nCommands:\n  send              Queue text, a URL, or a local file or folder for sharing\n  status            Print endpoint observations\n  health            Confirm that the local endpoint is running\n  protocol-version  Print the control protocol version\n  discover          Start or stop outbound peer discovery\n  visibility        Open or close inbound discoverability\n  peer              Pin or unpin the preferred peer\n  share             Act on a queued or inbound share\n  config            Show or update user settings\n  daemon            Run the local endpoint\n  help              Print this message or the help of the given subcommand(s)\n\nOptions:\n  -h, --help     Print help\n  -V, --version  Print version\n\nExamples:\n  omarchy-quickshare \"hello from Omarchy\"\n  omarchy-quickshare ./note.txt\n  omarchy-quickshare \"https://example.test/share\"\n  omarchy-quickshare status --json\n  omarchy-quickshare discover start\n  omarchy-quickshare peer pin galaxy-tab\n  omarchy-quickshare share select 1 pixel-8\n  omarchy-quickshare visibility open\n  omarchy-quickshare daemon\n  omarchy-quickshare daemon --log-level debug\n\nLogs go to stderr. Follow the user service with:\n  journalctl --user -u omarchy-quickshare.service -f\n"@
}

/// Writes the top-level help text.
fn top_help_text() -> (r: String)
    ensures
        r@ == top_help(),
{
    owned("Account-free Quick Share for Omarchy\n\nUsage: omarchy-quickshare <COMMAND>\n\nCommands:\n  send              Queue text, a URL, or a local file or folder for sharing\n  status            Print endpoint observations\n  health            Confirm that the local endpoint is running\n  protocol-version  Print the control protocol version\n  discover          Start or stop outbound peer discovery\n  visibility        Open or close inbound discoverability\n  peer              Pin or unpin the preferred peer\n  share             Act on a queued or inbound share\n  config            Show or update user settings\n  daemon            Run the local endpoint\n  help              Print this message or the help of the given subcommand(s)\n\nOptions:\n  -h, --help     Print help\n  -V, --version  Print version\n\nExamples:\n  omarchy-quickshare \"hello from Omarchy\"\n  omarchy-quickshare ./note.txt\n  omarchy-quickshare \"https://example.test/share\"\n  omarchy-quickshare status --json\n  omarchy-quickshare discover start\n  omarchy-quickshare peer pin galaxy-tab\n  omarchy-quickshare share select 1 pixel-8\n  omarchy-quickshare visibility open\n  omarchy-quickshare daemon\n  omarchy-quickshare daemon --log-level debug\n\nLogs go to stderr. Follow the user service with:\n  journalctl --user -u omarchy-quickshare.service -f\n")
}

/// The version line, `omarchy-quickshare 0.1.0`.
pub open spec fn version_text() -> Seq<char> {
    "omarchy-quickshare 0.1.0\n"@
}

/// The control protocol version line.
pub open spec fn protocol_version_text() -> Seq<char> {
    "3\n"@
}

/// What one command does and the values it takes, named by its words.
pub open spec fn command_info(path: Seq<char>) -> (Seq<char>, Seq<char>) {
    if path == "send"@ {
        ("Queue text, a URL, or a local file or folder for sharing"@, "[OPTIONS] <CONTENT>"@)
    } else if path == "status"@ {
        ("Print endpoint observations"@, "[OPTIONS]"@)
    } else if path == "health"@ {
        ("Confirm that the local endpoint is running"@, ""@)
    } else if path == "protocol-version"@ {
        ("Print the control protocol version"@, ""@)
    } else if path == "discover"@ {
        ("Start or stop outbound peer discovery"@, "<ACTION>"@)
    } else if path == "visibility"@ {
        ("Open or close inbound discoverability"@, "<ACTION>"@)
    } else if path == "peer"@ {
        ("Pin or unpin the preferred peer"@, "<COMMAND>"@)
    } else if path == "peer pin"@ {
        ("Prefer one observed peer for future shares"@, "<PEER_ID>"@)
    } else if path == "peer unpin"@ {
        ("Clear the single pinned peer"@, ""@)
    } else if path == "share"@ {
        ("Act on a queued or inbound share"@, "<COMMAND>"@)
    } else if path == "share select"@ {
        ("Choose a peer for one queued outbound share"@, "<SHARE_ID> <PEER_ID>"@)
    } else if path == "share accept"@ {
        ("Accept one inbound share"@, "<SHARE_ID>"@)
    } else if path == "share reject"@ {
        ("Reject one inbound share"@, "<SHARE_ID>"@)
    } else if path == "share cancel"@ {
        ("Cancel one active share"@, "<SHARE_ID>"@)
    } else if path == "share dismiss"@ {
        ("Clear one terminal share from public state"@, "<SHARE_ID>"@)
    } else if path == "config"@ {
        ("Show or update user settings"@, "<COMMAND>"@)
    } else if path == "config show"@ {
        ("Print the effective settings as TOML"@, ""@)
    } else if path == "config set"@ {
        ("Update one documented setting"@, "<KEY> <VALUE>"@)
    } else if path == "daemon"@ {
        ("Run the local endpoint"@, "[OPTIONS]"@)
    } else if path == "simulate"@ {
        ("Inject deterministic simulator events"@, "<COMMAND>"@)
    } else if path == "simulate discovery-timeout"@ {
        ("Expire the current outbound search"@, ""@)
    } else if path == "simulate fail"@ {
        ("Fail one active share"@, "<SHARE_ID>"@)
    } else if path == "simulate incoming-file"@ {
        ("Offer a deterministic inbound file"@, "<NAME> <SIZE_BYTES>"@)
    } else if path == "simulate incoming-text"@ {
        ("Offer a deterministic inbound text payload"@, "<TEXT>"@)
    } else if path == "simulate incoming-url"@ {
        ("Offer a deterministic inbound URL"@, "<URL>"@)
    } else if path == "simulate peer-accept"@ {
        ("Accept the outbound share as the selected peer"@, "<SHARE_ID>"@)
    } else if path == "simulate peer-lost"@ {
        ("Remove one observed peer"@, "<PEER_ID>"@)
    } else if path == "simulate peer-reject"@ {
        ("Reject the outbound share as the selected peer"@, "<SHARE_ID>"@)
    } else if path == "simulate peer-seen"@ {
        ("Observe one simulated peer"@, "<PEER_ID> <NAME>"@)
    } else if path == "simulate progress"@ {
        ("Record transfer progress for one share"@, "<SHARE_ID> <TRANSFERRED_BYTES>"@)
    } else {
        (Seq::empty(), Seq::empty())
    }
}

/// Looks up what one command does and the values it takes.
fn command_info_text(path: &str) -> (r: (&'static str, &'static str))
    ensures
        (r.0@, r.1@) == command_info(path@),
{
    proof {
        reveal_strlit("");
    }
    if str_eq(path, "send") {
        ("Queue text, a URL, or a local file or folder for sharing", "[OPTIONS] <CONTENT>")
    } else if str_eq(path, "status") {
        ("Print endpoint observations", "[OPTIONS]")
    } else if str_eq(path, "health") {
        ("Confirm that the local endpoint is running", "")
    } else if str_eq(path, "protocol-version") {
        ("Print the control protocol version", "")
    } else if str_eq(path, "discover") {
        ("Start or stop outbound peer discovery", "<ACTION>")
    } else if str_eq(path, "visibility") {
        ("Open or close inbound discoverability", "<ACTION>")
    } else if str_eq(path, "peer") {
        ("Pin or unpin the preferred peer", "<COMMAND>")
    } else if str_eq(path, "peer pin") {
        ("Prefer one observed peer for future shares", "<PEER_ID>")
    } else if str_eq(path, "peer unpin") {
        ("Clear the single pinned peer", "")
    } else if str_eq(path, "share") {
        ("Act on a queued or inbound share", "<COMMAND>")
    } else if str_eq(path, "share select") {
        ("Choose a peer for one queued outbound share", "<SHARE_ID> <PEER_ID>")
    } else if str_eq(path, "share accept") {
        ("Accept one inbound share", "<SHARE_ID>")
    } else if str_eq(path, "share reject") {
        ("Reject one inbound share", "<SHARE_ID>")
    } else if str_eq(path, "share cancel") {
        ("Cancel one active share", "<SHARE_ID>")
    } else if str_eq(path, "share dismiss") {
        ("Clear one terminal share from public state", "<SHARE_ID>")
    } else if str_eq(path, "config") {
        ("Show or update user settings", "<COMMAND>")
    } else if str_eq(path, "config show") {
        ("Print the effective settings as TOML", "")
    } else if str_eq(path, "config set") {
        ("Update one documented setting", "<KEY> <VALUE>")
    } else if str_eq(path, "daemon") {
        ("Run the local endpoint", "[OPTIONS]")
    } else if str_eq(path, "simulate") {
        ("Inject deterministic simulator events", "<COMMAND>")
    } else if str_eq(path, "simulate discovery-timeout") {
        ("Expire the current outbound search", "")
    } else if str_eq(path, "simulate fail") {
        ("Fail one active share", "<SHARE_ID>")
    } else if str_eq(path, "simulate incoming-file") {
        ("Offer a deterministic inbound file", "<NAME> <SIZE_BYTES>")
    } else if str_eq(path, "simulate incoming-text") {
        ("Offer a deterministic inbound text payload", "<TEXT>")
    } else if str_eq(path, "simulate incoming-url") {
        ("Offer a deterministic inbound URL", "<URL>")
    } else if str_eq(path, "simulate peer-accept") {
        ("Accept the outbound share as the selected peer", "<SHARE_ID>")
    } else if str_eq(path, "simulate peer-lost") {
        ("Remove one observed peer", "<PEER_ID>")
    } else if str_eq(path, "simulate peer-reject") {
        ("Reject the outbound share as the selected peer", "<SHARE_ID>")
    } else if str_eq(path, "simulate peer-seen") {
        ("Observe one simulated peer", "<PEER_ID> <NAME>")
    } else if str_eq(path, "simulate progress") {
        ("Record transfer progress for one share", "<SHARE_ID> <TRANSFERRED_BYTES>")
    } else {
        ("", "")
    }
}

/// The help text of one command, named by its words: what it does, its
/// usage line, and its options.
pub open spec fn command_help(path: Seq<char>) -> Seq<char> {
    let (about, usage) = command_info(path);
    about + "\n\nUsage: omarchy-quickshare "@ + path
        + (if usage.len() > 0 { seq![' '] + usage } else { Seq::empty() })
        + "\n\nOptions:\n  -h, --help  Print help\n"@
}

/// Writes the help text of one command.
fn command_help_text(path: &str) -> (r: String)
    ensures
        r@ == command_help(path@),
{
    let (about, usage) = command_info_text(path);
    let mut out = chars_of(about);
    crate::text::push_str(&mut out, "\n\nUsage: omarchy-quickshare ");
    crate::text::push_str(&mut out, path);
    let ghost before = out@;
    if chars_of(usage).len() > 0 {
        out.push(' ');
        crate::text::push_str(&mut out, usage);
        assert(out@ =~= before + (seq![' '] + usage@));
    } else {
        assert(out@ =~= before + Seq::<char>::empty());
    }
    crate::text::push_str(&mut out, "\n\nOptions:\n  -h, --help  Print help\n");
    string_from_chars(out.as_slice())
}

/// Whether a word reads as an option: a dash followed by something.
pub open spec fn is_option_like(t: Seq<char>) -> bool {
    t.len() > 1 && t[0] == '-'
}

/// Whether a word asks for help.
pub open spec fn is_help_flag(t: Seq<char>) -> bool {
    t == "-h"@ || t == "--help"@
}

/// Whether a word is `name=value` for the option `name`.
pub open spec fn has_inline_value(t: Seq<char>, name: Seq<char>) -> bool {
    name.len() > 0 && t.len() > name.len() && seq_starts_with(t, name) && t[name.len() as int] == '='
}

/// What the words after a command say: its option value, whether its flag
/// was given, its plain values in order, whether `--` was passed, and
/// whether help was asked for.
pub ghost struct ScanView {
    pub value: Option<Seq<char>>,
    pub flag: bool,
    pub positionals: Seq<Seq<char>>,
    pub raw: bool,
    pub help: bool,
}

/// Nothing read yet.
pub open spec fn empty_scan() -> ScanView {
    ScanView { value: None, flag: false, positionals: Seq::empty(), raw: false, help: false }
}

/// Reads the words from `i` on, for a command whose one value option is
/// `valued` and whose one flag is `flag` (empty when it has none). Help
/// stops the reading; after `--` every word is a plain value.
pub open spec fn scan_from(
    tokens: Seq<Seq<char>>,
    i: int,
    valued: Seq<char>,
    flag: Seq<char>,
    st: ScanView,
) -> Result<ScanView, CliErrorView>
    decreases tokens.len() - i,
{
    if i < 0 || i >= tokens.len() {
        Ok(st)
    } else {
        let t = tokens[i];
        if st.raw || !is_option_like(t) {
            scan_from(tokens, i + 1, valued, flag, ScanView { positionals: st.positionals.push(t), ..st })
        } else if t == "--"@ {
            scan_from(tokens, i + 1, valued, flag, ScanView { raw: true, ..st })
        } else if is_help_flag(t) {
            Ok(ScanView { help: true, ..st })
        } else if valued.len() > 0 && (t == valued || has_inline_value(t, valued)) {
            if st.value is Some {
                Err(CliErrorView::DuplicateOption(valued))
            } else if t == valued {
                if i + 1 < tokens.len() {
                    scan_from(tokens, i + 2, valued, flag, ScanView { value: Some(tokens[i + 1]), ..st })
                } else {
                    Err(CliErrorView::MissingValue(valued))
                }
            } else {
                scan_from(tokens, i + 1, valued, flag, ScanView { value: Some(t.skip(valued.len() + 1int)), ..st })
            }
        } else if flag.len() > 0 && t == flag {
            if st.flag {
                Err(CliErrorView::DuplicateOption(flag))
            } else {
                scan_from(tokens, i + 1, valued, flag, ScanView { flag: true, ..st })
            }
        } else {
            Err(CliErrorView::UnknownArgument(t))
        }
    }
}

/// The words after a command, read.
#[derive(Debug)]
pub struct Scan {
    /// The command's option value.
    pub value: Option<String>,
    /// Whether the command's flag was given.
    pub flag: bool,
    /// Plain values in order.
    pub positionals: Vec<String>,
    /// Whether `--` was passed.
    pub raw: bool,
    /// Whether help was asked for.
    pub help: bool,
}

impl View for Scan {
    type V = ScanView;

    open spec fn view(&self) -> ScanView {
        ScanView {
            value: match self.value {
                Some(v) => Some(v@),
                None => None,
            },
            flag: self.flag,
            positionals: strings_view(self.positionals@),
            raw: self.raw,
            help: self.help,
        }
    }
}

/// The view of a read result.
pub open spec fn scan_result_view(r: Result<Scan, CliError>) -> Result<ScanView, CliErrorView> {
    match r {
        Ok(s) => Ok(s@),
        Err(e) => Err(e@),
    }
}

/// Whether `t` is `name=value`, checked.
fn inline_value_of(t: &str, name: &str) -> (r: Option<String>)
    ensures
        r is Some <==> has_inline_value(t@, name@),
        r matches Some(v) ==> v@ == t@.skip(name@.len() + 1int),
{
    let tc = chars_of(t);
    let nc = chars_of(name);
    if nc.len() == 0 || tc.len() <= nc.len() {
        return None;
    }
    if !str_starts_with(t, name) || tc[nc.len()] != '=' {
        return None;
    }
    let rest = copy_range(&tc, nc.len() + 1, tc.len());
    assert(rest@ =~= t@.skip(name@.len() + 1int));
    Some(string_from_chars(rest.as_slice()))
}

/// Whether a word reads as an option, checked.
fn option_like(t: &str) -> (r: bool)
    ensures
        r == is_option_like(t@),
{
    let tc = chars_of(t);
    tc.len() > 1 && tc[0] == '-'
}

/// Reads the words after a command.
pub fn scan(tokens: &[String], valued: &str, flag: &str) -> (r: Result<Scan, CliError>)
    ensures
        scan_result_view(r) == scan_from(strings_view(tokens@), 0, valued@, flag@, empty_scan()),
{
    let ghost ts = strings_view(tokens@);
    let mut st = Scan { value: None, flag: false, positionals: Vec::new(), raw: false, help: false };
    assert(st@.positionals =~= Seq::<Seq<char>>::empty());
    let has_valued = chars_of(valued).len() > 0;
    let has_flag = chars_of(flag).len() > 0;
    let mut i: usize = 0;
    while i < tokens.len()
        invariant
            i <= tokens@.len(),
            ts == strings_view(tokens@),
            has_valued == (valued@.len() > 0),
            has_flag == (flag@.len() > 0),
            !st.help,
            scan_from(ts, 0, valued@, flag@, empty_scan()) == scan_from(ts, i as int, valued@, flag@, st@),
        decreases tokens@.len() - i,
    {
        let t = tokens[i].as_str();
        assert(ts[i as int] == t@);
        let ghost before = st@;
        if st.raw || !option_like(t) {
            st.positionals.push(owned(t));
            assert(strings_view(st.positionals@) =~= before.positionals.push(t@));
            i = i + 1;
        } else if str_eq(t, "--") {
            st.raw = true;
            i = i + 1;
        } else if str_eq(t, "-h") || str_eq(t, "--help") {
            st.help = true;
            return Ok(st);
        } else {
            let inline = if has_valued {
                inline_value_of(t, valued)
            } else {
                None
            };
            if has_valued && (str_eq(t, valued) || inline.is_some()) {
                if st.value.is_some() {
                    return Err(CliError::DuplicateOption(owned(valued)));
                }
                if str_eq(t, valued) {
                    if i + 1 < tokens.len() {
                        assert(ts[i + 1] == tokens@[i + 1]@);
                        st.value = Some(owned(tokens[i + 1].as_str()));
                        i = i + 2;
                    } else {
                        return Err(CliError::MissingValue(owned(valued)));
                    }
                } else {
                    st.value = inline;
                    i = i + 1;
                }
            } else if has_flag && str_eq(t, flag) {
                if st.flag {
                    return Err(CliError::DuplicateOption(owned(flag)));
                }
                st.flag = true;
                i = i + 1;
            } else {
                return Err(CliError::UnknownArgument(owned(t)));
            }
        }
    }
    Ok(st)
}

/// A command's words, read: either help or the values to act on.
#[derive(Debug)]
pub enum Leaf {
    /// Help was asked for; this is the text.
    Help(String),
    /// The values to act on.
    Args(Scan),
}

/// A read command with its strings as characters.
pub ghost enum LeafView {
    Help(Seq<char>),
    Args(ScanView),
}

impl View for Leaf {
    type V = LeafView;

    open spec fn view(&self) -> LeafView {
        match self {
            Leaf::Help(h) => LeafView::Help(h@),
            Leaf::Args(s) => LeafView::Args(s@),
        }
    }
}

/// The view of a read command result.
pub open spec fn leaf_result_view(r: Result<Leaf, CliError>) -> Result<LeafView, CliErrorView> {
    match r {
        Ok(l) => Ok(l@),
        Err(e) => Err(e@),
    }
}

/// Reads the words after the command `path`, which takes exactly `arity`
/// plain values.
pub open spec fn leaf_spec(
    path: Seq<char>,
    rest: Seq<Seq<char>>,
    valued: Seq<char>,
    flag: Seq<char>,
    arity: nat,
) -> Result<LeafView, CliErrorView> {
    match scan_from(rest, 0, valued, flag, empty_scan()) {
        Err(e) => Err(e),
        Ok(st) => if st.help {
            Ok(LeafView::Help(command_help(path)))
        } else if st.positionals.len() < arity {
            Err(CliErrorView::MissingArgument)
        } else if st.positionals.len() > arity {
            Err(CliErrorView::UnexpectedArgument(st.positionals[arity as int]))
        } else {
            Ok(LeafView::Args(st))
        },
    }
}

/// What a read command asks for: its help, or what `build` makes of it.
pub open spec fn finish(
    r: Result<LeafView, CliErrorView>,
    build: spec_fn(ScanView) -> Result<InvocationView, CliErrorView>,
) -> Result<InvocationView, CliErrorView> {
    match r {
        Err(e) => Err(e),
        Ok(LeafView::Help(h)) => Ok(InvocationView::Print(h)),
        Ok(LeafView::Args(st)) => build(st),
    }
}

/// Reads the words after a command that takes `arity` plain values.
fn leaf(path: &str, rest: &[String], valued: &str, flag: &str, arity: usize) -> (r: Result<Leaf, CliError>)
    ensures
        leaf_result_view(r) == leaf_spec(path@, strings_view(rest@), valued@, flag@, arity as nat),
        r matches Ok(Leaf::Args(st)) ==> st.positionals@.len() == arity,
{
    let st = match scan(rest, valued, flag) {
        Ok(st) => st,
        Err(e) => return Err(e),
    };
    if st.help {
        return Ok(Leaf::Help(command_help_text(path)));
    }
    let n = st.positionals.len();
    if n < arity {
        return Err(CliError::MissingArgument);
    }
    if n > arity {
        assert(st@.positionals[arity as int] == st.positionals@[arity as int]@);
        return Err(CliError::UnexpectedArgument(owned(st.positionals[arity].as_str())));
    }
    Ok(Leaf::Args(st))
}

/// A number argument: a non-negative integer.
pub open spec fn number_spec(a: Seq<char>) -> Result<u64, CliErrorView> {
    match parse_u64_spec(encode_utf8(a)) {
        Some(v) => Ok(v),
        None => Err(CliErrorView::InvalidValue(a)),
    }
}

/// Reads a number argument.
fn number(a: &str) -> (r: Result<u64, CliError>)
    ensures
        match r {
            Ok(v) => number_spec(a@) == Ok::<u64, CliErrorView>(v),
            Err(e) => number_spec(a@) == Err::<u64, CliErrorView>(e@),
        },
{
    match parse_u64(a) {
        Some(v) => Ok(v),
        None => Err(CliError::InvalidValue(owned(a))),
    }
}

/// The refusal of a word that names no command of a group.
pub open spec fn unknown_member(sub: Seq<char>) -> Result<InvocationView, CliErrorView> {
    if is_option_like(sub) {
        Err(CliErrorView::UnknownArgument(sub))
    } else {
        Err(CliErrorView::InvalidSubcommand(sub))
    }
}

/// Refuses a word that names no command of a group.
fn unknown(sub: &str) -> (r: Result<Invocation, CliError>)
    ensures
        invocation_result_view(r) == unknown_member(sub@),
{
    if option_like(sub) {
        Err(CliError::UnknownArgument(owned(sub)))
    } else {
        Err(CliError::InvalidSubcommand(owned(sub)))
    }
}

/// A request carrying one share identifier read from `a`.
pub open spec fn with_id(a: Seq<char>, make: spec_fn(u64) -> RequestView) -> Result<InvocationView, CliErrorView> {
    match number_spec(a) {
        Ok(id) => Ok(InvocationView::Control(make(id))),
        Err(e) => Err(e),
    }
}

/// A command whose one plain value is a share identifier.
pub open spec fn id_command(path: Seq<char>, rest: Seq<Seq<char>>, make: spec_fn(u64) -> RequestView) -> Result<InvocationView, CliErrorView> {
    finish(leaf_spec(path, rest, ""@, ""@, 1), |st: ScanView| with_id(st.positionals[0], make))
}

/// The request each `share` command on one identifier makes: accept,
/// reject, cancel and dismiss in that order.
pub open spec fn share_make(kind: u8) -> spec_fn(u64) -> RequestView {
    |v: u64| if kind == 0 {
        RequestView::Accept { share_id: v }
    } else if kind == 1 {
        RequestView::Reject { share_id: v }
    } else if kind == 2 {
        RequestView::Cancel { share_id: v }
    } else {
        RequestView::Dismiss { share_id: v }
    }
}

/// `peer pin PEER_ID` and `peer unpin`.
pub open spec fn peer_spec(sub: Seq<char>, rest: Seq<Seq<char>>) -> Result<InvocationView, CliErrorView> {
    if sub == "pin"@ {
        finish(leaf_spec("peer pin"@, rest, ""@, ""@, 1), |st: ScanView| Ok(InvocationView::Control(RequestView::PinPeer { peer_id: st.positionals[0] })))
    } else if sub == "unpin"@ {
        finish(leaf_spec("peer unpin"@, rest, ""@, ""@, 0), |st: ScanView| Ok(InvocationView::Control(RequestView::UnpinPeer)))
    } else {
        unknown_member(sub)
    }
}

/// `share select SHARE_ID PEER_ID` and `share accept|reject|cancel|dismiss
/// SHARE_ID`.
pub open spec fn share_spec(sub: Seq<char>, rest: Seq<Seq<char>>) -> Result<InvocationView, CliErrorView> {
    if sub == "select"@ {
        finish(leaf_spec("share select"@, rest, ""@, ""@, 2), |st: ScanView| match number_spec(st.positionals[0]) {
            Ok(id) => Ok(InvocationView::Control(RequestView::SelectPeer { share_id: id, peer_id: st.positionals[1] })),
            Err(e) => Err(e),
        })
    } else if sub == "accept"@ {
        id_command("share accept"@, rest, share_make(0))
    } else if sub == "reject"@ {
        id_command("share reject"@, rest, share_make(1))
    } else if sub == "cancel"@ {
        id_command("share cancel"@, rest, share_make(2))
    } else if sub == "dismiss"@ {
        id_command("share dismiss"@, rest, share_make(3))
    } else {
        unknown_member(sub)
    }
}

/// `config show` and `config set KEY VALUE`.
pub open spec fn config_spec(sub: Seq<char>, rest: Seq<Seq<char>>) -> Result<InvocationView, CliErrorView> {
    if sub == "show"@ {
        finish(leaf_spec("config show"@, rest, ""@, ""@, 0), |st: ScanView| Ok(InvocationView::ShowConfig))
    } else if sub == "set"@ {
        finish(leaf_spec("config set"@, rest, ""@, ""@, 2), |st: ScanView| Ok(InvocationView::SetConfig { key: st.positionals[0], value: st.positionals[1] }))
    } else {
        unknown_member(sub)
    }
}

/// A simulator request, once the process has opted in.
pub open spec fn simulated(allowed: bool, q: RequestView) -> Result<InvocationView, CliErrorView> {
    if allowed {
        Ok(InvocationView::Control(q))
    } else {
        Err(CliErrorView::SimulationUnavailable)
    }
}

/// A simulator request carrying one number read from `a`.
pub open spec fn simulated_with(allowed: bool, a: Seq<char>, make: spec_fn(u64) -> RequestView) -> Result<InvocationView, CliErrorView> {
    match number_spec(a) {
        Ok(v) => simulated(allowed, make(v)),
        Err(e) => Err(e),
    }
}

/// A simulator command whose one plain value is a share identifier.
pub open spec fn sim_id_command(path: Seq<char>, rest: Seq<Seq<char>>, allowed: bool, make: spec_fn(u64) -> RequestView) -> Result<InvocationView, CliErrorView> {
    finish(leaf_spec(path, rest, ""@, ""@, 1), |st: ScanView| simulated_with(allowed, st.positionals[0], make))
}

/// The request each simulator command on one identifier makes: fail, peer
/// accept and peer reject in that order.
pub open spec fn sim_make(kind: u8) -> spec_fn(u64) -> RequestView {
    |v: u64| if kind == 0 {
        RequestView::SimulateFail { share_id: v }
    } else if kind == 1 {
        RequestView::SimulatePeerAccept { share_id: v }
    } else {
        RequestView::SimulatePeerReject { share_id: v }
    }
}

/// The hidden `simulate` commands; each needs the process to have opted in.
pub open spec fn simulate_spec(sub: Seq<char>, rest: Seq<Seq<char>>, allowed: bool) -> Result<InvocationView, CliErrorView> {
    if sub == "discovery-timeout"@ {
        finish(leaf_spec("simulate discovery-timeout"@, rest, ""@, ""@, 0), |st: ScanView| simulated(allowed, RequestView::SimulateDiscoveryTimeout))
    } else if sub == "fail"@ {
        sim_id_command("simulate fail"@, rest, allowed, sim_make(0))
    } else if sub == "incoming-file"@ {
        finish(leaf_spec("simulate incoming-file"@, rest, ""@, ""@, 2), |st: ScanView| simulated_with(allowed, st.positionals[1], |v: u64| RequestView::SimulateIncomingFile { name: st.positionals[0], size_bytes: v }))
    } else if sub == "incoming-text"@ {
        finish(leaf_spec("simulate incoming-text"@, rest, ""@, ""@, 1), |st: ScanView| simulated(allowed, RequestView::SimulateIncomingText { text: st.positionals[0] }))
    } else if sub == "incoming-url"@ {
        finish(leaf_spec("simulate incoming-url"@, rest, ""@, ""@, 1), |st: ScanView| simulated(allowed, RequestView::SimulateIncomingUrl { url: st.positionals[0] }))
    } else if sub == "peer-accept"@ {
        sim_id_command("simulate peer-accept"@, rest, allowed, sim_make(1))
    } else if sub == "peer-lost"@ {
        finish(leaf_spec("simulate peer-lost"@, rest, ""@, ""@, 1), |st: ScanView| simulated(allowed, RequestView::SimulatePeerLost { peer_id: st.positionals[0] }))
    } else if sub == "peer-reject"@ {
        sim_id_command("simulate peer-reject"@, rest, allowed, sim_make(2))
    } else if sub == "peer-seen"@ {
        finish(leaf_spec("simulate peer-seen"@, rest, ""@, ""@, 2), |st: ScanView| simulated(allowed, RequestView::SimulatePeerSeen { peer_id: st.positionals[0], name: st.positionals[1] }))
    } else if sub == "progress"@ {
        finish(leaf_spec("simulate progress"@, rest, ""@, ""@, 2), |st: ScanView| match number_spec(st.positionals[0]) {
            Ok(id) => simulated_with(allowed, st.positionals[1], |v: u64| RequestView::SimulateProgress { share_id: id, transferred_bytes: v }),
            Err(e) => Err(e),
        })
    } else {
        unknown_member(sub)
    }
}

/// Runs `peer pin` or `peer unpin`.
fn peer_command(sub: &str, rest: &[String]) -> (r: Result<Invocation, CliError>)
    ensures
        invocation_result_view(r) == peer_spec(sub@, strings_view(rest@)),
{
    if str_eq(sub, "pin") {
        return match leaf("peer pin", rest, "", "", 1) {
            Err(e) => Err(e),
            Ok(Leaf::Help(h)) => Ok(Invocation::Print(h)),
            Ok(Leaf::Args(st)) => {
                assert(st@.positionals[0] == st.positionals@[0]@);
                Ok(Invocation::Control(ControlRequest::PinPeer { peer_id: owned(st.positionals[0].as_str()) }))
            },
        };
    }
    if str_eq(sub, "unpin") {
        return match leaf("peer unpin", rest, "", "", 0) {
            Err(e) => Err(e),
            Ok(Leaf::Help(h)) => Ok(Invocation::Print(h)),
            Ok(Leaf::Args(_)) => Ok(Invocation::Control(ControlRequest::UnpinPeer)),
        };
    }
    unknown(sub)
}

/// Runs one `share` command on one share identifier.
fn share_id_command(path: &str, rest: &[String], kind: u8) -> (r: Result<Invocation, CliError>)
    requires
        kind < 4,
    ensures
        invocation_result_view(r) == id_command(path@, strings_view(rest@), share_make(kind)),
{
    match leaf(path, rest, "", "", 1) {
        Err(e) => Err(e),
        Ok(Leaf::Help(h)) => Ok(Invocation::Print(h)),
        Ok(Leaf::Args(st)) => {
            assert(st@.positionals[0] == st.positionals@[0]@);
            match number(st.positionals[0].as_str()) {
                Err(e) => Err(e),
                Ok(v) => Ok(Invocation::Control(
                    if kind == 0 {
                        ControlRequest::Accept { share_id: v }
                    } else if kind == 1 {
                        ControlRequest::Reject { share_id: v }
                    } else if kind == 2 {
                        ControlRequest::Cancel { share_id: v }
                    } else {
                        ControlRequest::Dismiss { share_id: v }
                    },
                )),
            }
        },
    }
}

/// Runs one `share` command.
fn share_command(sub: &str, rest: &[String]) -> (r: Result<Invocation, CliError>)
    ensures
        invocation_result_view(r) == share_spec(sub@, strings_view(rest@)),
{
    if str_eq(sub, "select") {
        return match leaf("share select", rest, "", "", 2) {
            Err(e) => Err(e),
            Ok(Leaf::Help(h)) => Ok(Invocation::Print(h)),
            Ok(Leaf::Args(st)) => {
                assert(st@.positionals[0] == st.positionals@[0]@);
                assert(st@.positionals[1] == st.positionals@[1]@);
                match number(st.positionals[0].as_str()) {
                    Err(e) => Err(e),
                    Ok(id) => Ok(Invocation::Control(ControlRequest::SelectPeer {
                        share_id: id,
                        peer_id: owned(st.positionals[1].as_str()),
                    })),
                }
            },
        };
    }
    if str_eq(sub, "accept") {
        return share_id_command("share accept", rest, 0);
    }
    if str_eq(sub, "reject") {
        return share_id_command("share reject", rest, 1);
    }
    if str_eq(sub, "cancel") {
        return share_id_command("share cancel", rest, 2);
    }
    if str_eq(sub, "dismiss") {
        return share_id_command("share dismiss", rest, 3);
    }
    unknown(sub)
}

/// Runs `config show` or `config set`.
fn config_command(sub: &str, rest: &[String]) -> (r: Result<Invocation, CliError>)
    ensures
        invocation_result_view(r) == config_spec(sub@, strings_view(rest@)),
{
    if str_eq(sub, "show") {
        return match leaf("config show", rest, "", "", 0) {
            Err(e) => Err(e),
            Ok(Leaf::Help(h)) => Ok(Invocation::Print(h)),
            Ok(Leaf::Args(_)) => Ok(Invocation::ShowConfig),
        };
    }
    if str_eq(sub, "set") {
        return match leaf("config set", rest, "", "", 2) {
            Err(e) => Err(e),
            Ok(Leaf::Help(h)) => Ok(Invocation::Print(h)),
            Ok(Leaf::Args(st)) => {
                assert(st@.positionals[0] == st.positionals@[0]@);
                assert(st@.positionals[1] == st.positionals@[1]@);
                Ok(Invocation::SetConfig {
                    key: owned(st.positionals[0].as_str()),
                    value: owned(st.positionals[1].as_str()),
                })
            },
        };
    }
    unknown(sub)
}

/// A simulator request, refused unless the process opted in.
fn simulated_request(allowed: bool, q: ControlRequest) -> (r: Result<Invocation, CliError>)
    ensures
        invocation_result_view(r) == simulated(allowed, q@),
{
    if allowed {
        Ok(Invocation::Control(q))
    } else {
        Err(CliError::SimulationUnavailable)
    }
}

/// Runs one simulator command on one share identifier.
fn sim_id_request(path: &str, rest: &[String], allowed: bool, kind: u8) -> (r: Result<Invocation, CliError>)
    ensures
        invocation_result_view(r) == sim_id_command(path@, strings_view(rest@), allowed, sim_make(kind)),
{
    match leaf(path, rest, "", "", 1) {
        Err(e) => Err(e),
        Ok(Leaf::Help(h)) => Ok(Invocation::Print(h)),
        Ok(Leaf::Args(st)) => {
            assert(st@.positionals[0] == st.positionals@[0]@);
            match number(st.positionals[0].as_str()) {
                Err(e) => Err(e),
                Ok(v) => simulated_request(allowed,
                    if kind == 0 {
                        ControlRequest::SimulateFail { share_id: v }
                    } else if kind == 1 {
                        ControlRequest::SimulatePeerAccept { share_id: v }
                    } else {
                        ControlRequest::SimulatePeerReject { share_id: v }
                    },
                ),
            }
        },
    }
}

/// Runs one hidden simulator command.
fn simulate_command(sub: &str, rest: &[String], allowed: bool) -> (r: Result<Invocation, CliError>)
    ensures
        invocation_result_view(r) == simulate_spec(sub@, strings_view(rest@), allowed),
{
    if str_eq(sub, "discovery-timeout") {
        return match leaf("simulate discovery-timeout", rest, "", "", 0) {
            Err(e) => Err(e),
            Ok(Leaf::Help(h)) => Ok(Invocation::Print(h)),
            Ok(Leaf::Args(_)) => simulated_request(allowed, ControlRequest::SimulateDiscoveryTimeout),
        };
    }
    if str_eq(sub, "fail") {
        return sim_id_request("simulate fail", rest, allowed, 0);
    }
    if str_eq(sub, "incoming-file") {
        return match leaf("simulate incoming-file", rest, "", "", 2) {
            Err(e) => Err(e),
            Ok(Leaf::Help(h)) => Ok(Invocation::Print(h)),
            Ok(Leaf::Args(st)) => {
                assert(st@.positionals[0] == st.positionals@[0]@);
                assert(st@.positionals[1] == st.positionals@[1]@);
                match number(st.positionals[1].as_str()) {
                    Err(e) => Err(e),
                    Ok(size) => simulated_request(allowed, ControlRequest::SimulateIncomingFile {
                        name: owned(st.positionals[0].as_str()),
                        size_bytes: size,
                    }),
                }
            },
        };
    }
    if str_eq(sub, "incoming-text") {
        return match leaf("simulate incoming-text", rest, "", "", 1) {
            Err(e) => Err(e),
            Ok(Leaf::Help(h)) => Ok(Invocation::Print(h)),
            Ok(Leaf::Args(st)) => {
                assert(st@.positionals[0] == st.positionals@[0]@);
                simulated_request(allowed, ControlRequest::SimulateIncomingText { text: owned(st.positionals[0].as_str()) })
            },
        };
    }
    if str_eq(sub, "incoming-url") {
        return match leaf("simulate incoming-url", rest, "", "", 1) {
            Err(e) => Err(e),
            Ok(Leaf::Help(h)) => Ok(Invocation::Print(h)),
            Ok(Leaf::Args(st)) => {
                assert(st@.positionals[0] == st.positionals@[0]@);
                simulated_request(allowed, ControlRequest::SimulateIncomingUrl { url: owned(st.positionals[0].as_str()) })
            },
        };
    }
    if str_eq(sub, "peer-accept") {
        return sim_id_request("simulate peer-accept", rest, allowed, 1);
    }
    if str_eq(sub, "peer-lost") {
        return match leaf("simulate peer-lost", rest, "", "", 1) {
            Err(e) => Err(e),
            Ok(Leaf::Help(h)) => Ok(Invocation::Print(h)),
            Ok(Leaf::Args(st)) => {
                assert(st@.positionals[0] == st.positionals@[0]@);
                simulated_request(allowed, ControlRequest::SimulatePeerLost { peer_id: owned(st.positionals[0].as_str()) })
            },
        };
    }
    if str_eq(sub, "peer-reject") {
        return sim_id_request("simulate peer-reject", rest, allowed, 2);
    }
    if str_eq(sub, "peer-seen") {
        return match leaf("simulate peer-seen", rest, "", "", 2) {
            Err(e) => Err(e),
            Ok(Leaf::Help(h)) => Ok(Invocation::Print(h)),
            Ok(Leaf::Args(st)) => {
                assert(st@.positionals[0] == st.positionals@[0]@);
                assert(st@.positionals[1] == st.positionals@[1]@);
                simulated_request(allowed, ControlRequest::SimulatePeerSeen {
                    peer_id: owned(st.positionals[0].as_str()),
                    name: owned(st.positionals[1].as_str()),
                })
            },
        };
    }
    if str_eq(sub, "progress") {
        return match leaf("simulate progress", rest, "", "", 2) {
            Err(e) => Err(e),
            Ok(Leaf::Help(h)) => Ok(Invocation::Print(h)),
            Ok(Leaf::Args(st)) => {
                assert(st@.positionals[0] == st.positionals@[0]@);
                assert(st@.positionals[1] == st.positionals@[1]@);
                match number(st.positionals[0].as_str()) {
                    Err(e) => Err(e),
                    Ok(id) => match number(st.positionals[1].as_str()) {
                        Err(e) => Err(e),
                        Ok(bytes) => simulated_request(allowed, ControlRequest::SimulateProgress {
                            share_id: id,
                            transferred_bytes: bytes,
                        }),
                    },
                }
            },
        };
    }
    unknown(sub)
}

/// Whether a word names a top-level command.
pub open spec fn is_command(w: Seq<char>) -> bool {
    w == "send"@ || w == "status"@ || w == "health"@ || w == "protocol-version"@ || w == "discover"@
        || w == "visibility"@ || w == "peer"@ || w == "share"@ || w == "config"@ || w == "daemon"@
        || w == "simulate"@
}

/// A command group: the first word names the command within it.
pub open spec fn group_spec(group: Seq<char>, rest: Seq<Seq<char>>, allowed: bool) -> Result<InvocationView, CliErrorView> {
    if rest.len() == 0 {
        Err(CliErrorView::MissingSubcommand)
    } else if is_help_flag(rest[0]) || rest[0] == "help"@ {
        Ok(InvocationView::Print(command_help(group)))
    } else if group == "peer"@ {
        peer_spec(rest[0], rest.skip(1))
    } else if group == "share"@ {
        share_spec(rest[0], rest.skip(1))
    } else if group == "config"@ {
        config_spec(rest[0], rest.skip(1))
    } else {
        simulate_spec(rest[0], rest.skip(1), allowed)
    }
}

/// `daemon [--simulate] [--log-level LEVEL]`, at `info` by default.
pub open spec fn daemon_build(st: ScanView) -> Result<InvocationView, CliErrorView> {
    match st.value {
        None => Ok(InvocationView::StartDaemon { simulate: st.flag, log_level: LogLevel::Info }),
        Some(v) => match log_level_named(v) {
            Some(level) => Ok(InvocationView::StartDaemon { simulate: st.flag, log_level: level }),
            None => Err(CliErrorView::InvalidValue(v)),
        },
    }
}

/// What one top-level command and the words after it ask for.
pub open spec fn command_spec(name: Seq<char>, rest: Seq<Seq<char>>, allowed: bool) -> Result<InvocationView, CliErrorView> {
    if name == "send"@ {
        finish(leaf_spec(name, rest, "--peer"@, ""@, 1), |st: ScanView| Ok(InvocationView::Submit { content: st.positionals[0], peer: st.value }))
    } else if name == "status"@ {
        finish(leaf_spec(name, rest, ""@, "--json"@, 0), |st: ScanView| Ok(InvocationView::Status { json: st.flag }))
    } else if name == "health"@ {
        finish(leaf_spec(name, rest, ""@, ""@, 0), |st: ScanView| Ok(InvocationView::Health))
    } else if name == "protocol-version"@ {
        finish(leaf_spec(name, rest, ""@, ""@, 0), |st: ScanView| Ok(InvocationView::Print(protocol_version_text())))
    } else if name == "discover"@ {
        finish(leaf_spec(name, rest, ""@, ""@, 1), |st: ScanView| if st.positionals[0] == "start"@ {
            Ok(InvocationView::Control(RequestView::Discover))
        } else if st.positionals[0] == "stop"@ {
            Ok(InvocationView::Control(RequestView::StopDiscovery))
        } else {
            Err(CliErrorView::InvalidValue(st.positionals[0]))
        })
    } else if name == "visibility"@ {
        finish(leaf_spec(name, rest, ""@, ""@, 1), |st: ScanView| if st.positionals[0] == "open"@ {
            Ok(InvocationView::Control(RequestView::OpenVisibility))
        } else if st.positionals[0] == "close"@ {
            Ok(InvocationView::Control(RequestView::CloseVisibility))
        } else {
            Err(CliErrorView::InvalidValue(st.positionals[0]))
        })
    } else if name == "daemon"@ {
        finish(leaf_spec(name, rest, "--log-level"@, "--simulate"@, 0), |st: ScanView| daemon_build(st))
    } else {
        group_spec(name, rest, allowed)
    }
}

/// A command line that starts with an option other than help or version:
/// a state-changing command in flag form (`--accept 1`, `--send-to 1 peer`,
/// `--simulate-peer-seen id name`, ...) becomes its control request, a
/// simulator flag without opt-in is refused as such, and any other option
/// is unknown.
pub open spec fn flag_command_spec(args: Seq<Seq<char>>, simulation_allowed: bool) -> Result<InvocationView, CliErrorView> {
    match action_request_spec(args, simulation_allowed) {
        Ok(Some(q)) => Ok(InvocationView::Control(q)),
        Ok(None) => Err(CliErrorView::UnknownArgument(args[0])),
        Err(ArgumentError::SimulationUnavailable) => Err(CliErrorView::SimulationUnavailable),
        Err(e) => Err(CliErrorView::FlagCommand(e)),
    }
}

/// What a whole command line asks for. One word that names no command is
/// content to send; help and version are answered without the endpoint.
pub open spec fn run_spec(args: Seq<Seq<char>>, simulation_allowed: bool) -> Result<InvocationView, CliErrorView> {
    if args.len() == 0 {
        Err(CliErrorView::MissingCommand)
    } else if is_help_flag(args[0]) {
        Ok(InvocationView::Print(top_help()))
    } else if args[0] == "-V"@ || args[0] == "--version"@ {
        Ok(InvocationView::Print(version_text()))
    } else if args[0] == "help"@ {
        if args.len() == 1 {
            Ok(InvocationView::Print(top_help()))
        } else if is_command(args[1]) {
            Ok(InvocationView::Print(command_help(args[1])))
        } else {
            Err(CliErrorView::InvalidSubcommand(args[1]))
        }
    } else if is_command(args[0]) {
        command_spec(args[0], args.skip(1), simulation_allowed)
    } else if is_option_like(args[0]) {
        flag_command_spec(args, simulation_allowed)
    } else if args.len() == 1 {
        Ok(InvocationView::Submit { content: args[0], peer: None })
    } else {
        Err(CliErrorView::InvalidSubcommand(args[0]))
    }
}

/// Whether a word names a top-level command, checked.
fn command_named(w: &str) -> (r: bool)
    ensures
        r == is_command(w@),
{
    str_eq(w, "send") || str_eq(w, "status") || str_eq(w, "health") || str_eq(w, "protocol-version")
        || str_eq(w, "discover") || str_eq(w, "visibility") || str_eq(w, "peer") || str_eq(w, "share")
        || str_eq(w, "config") || str_eq(w, "daemon") || str_eq(w, "simulate")
}

/// The words after the first.
fn tail(args: &[String]) -> (r: &[String])
    requires
        args@.len() > 0,
    ensures
        strings_view(r@) == strings_view(args@).skip(1),
{
    let r = &args[1..args.len()];
    assert(strings_view(r@) =~= strings_view(args@).skip(1));
    r
}

/// Runs one command group.
fn group_command(group: &str, rest: &[String], allowed: bool) -> (r: Result<Invocation, CliError>)
    requires
        group@ == "peer"@ || group@ == "share"@ || group@ == "config"@ || group@ == "simulate"@,
    ensures
        invocation_result_view(r) == group_spec(group@, strings_view(rest@), allowed),
{
    if rest.len() == 0 {
        return Err(CliError::MissingSubcommand);
    }
    let sub = rest[0].as_str();
    assert(strings_view(rest@)[0] == sub@);
    if str_eq(sub, "-h") || str_eq(sub, "--help") || str_eq(sub, "help") {
        return Ok(Invocation::Print(command_help_text(group)));
    }
    let more = tail(rest);
    if str_eq(group, "peer") {
        peer_command(sub, more)
    } else if str_eq(group, "share") {
        share_command(sub, more)
    } else if str_eq(group, "config") {
        config_command(sub, more)
    } else {
        simulate_command(sub, more, allowed)
    }
}

/// Reads `discover` or `visibility` with its one value.
fn toggle_command(name: &str, rest: &[String], on: &str, off: &str, on_request: ControlRequest, off_request: ControlRequest) -> (r: Result<Invocation, CliError>)
    ensures
        invocation_result_view(r) == finish(leaf_spec(name@, strings_view(rest@), ""@, ""@, 1), |st: ScanView| if st.positionals[0] == on@ {
            Ok(InvocationView::Control(on_request@))
        } else if st.positionals[0] == off@ {
            Ok(InvocationView::Control(off_request@))
        } else {
            Err(CliErrorView::InvalidValue(st.positionals[0]))
        }),
{
    match leaf(name, rest, "", "", 1) {
        Err(e) => Err(e),
        Ok(Leaf::Help(h)) => Ok(Invocation::Print(h)),
        Ok(Leaf::Args(st)) => {
            let v = st.positionals[0].as_str();
            assert(st@.positionals[0] == v@);
            if str_eq(v, on) {
                Ok(Invocation::Control(on_request))
            } else if str_eq(v, off) {
                Ok(Invocation::Control(off_request))
            } else {
                Err(CliError::InvalidValue(owned(v)))
            }
        },
    }
}

/// Runs one top-level command.
fn command(name: &str, rest: &[String], allowed: bool) -> (r: Result<Invocation, CliError>)
    requires
        is_command(name@),
    ensures
        invocation_result_view(r) == command_spec(name@, strings_view(rest@), allowed),
{
    if str_eq(name, "send") {
        return match leaf(name, rest, "--peer", "", 1) {
            Err(e) => Err(e),
            Ok(Leaf::Help(h)) => Ok(Invocation::Print(h)),
            Ok(Leaf::Args(st)) => {
                assert(st@.positionals[0] == st.positionals@[0]@);
                Ok(Invocation::Submit { content: owned(st.positionals[0].as_str()), peer: st.value })
            },
        };
    }
    if str_eq(name, "status") {
        return match leaf(name, rest, "", "--json", 0) {
            Err(e) => Err(e),
            Ok(Leaf::Help(h)) => Ok(Invocation::Print(h)),
            Ok(Leaf::Args(st)) => Ok(Invocation::Status { json: st.flag }),
        };
    }
    if str_eq(name, "health") {
        return match leaf(name, rest, "", "", 0) {
            Err(e) => Err(e),
            Ok(Leaf::Help(h)) => Ok(Invocation::Print(h)),
            Ok(Leaf::Args(_)) => Ok(Invocation::Health),
        };
    }
    if str_eq(name, "protocol-version") {
        return match leaf(name, rest, "", "", 0) {
            Err(e) => Err(e),
            Ok(Leaf::Help(h)) => Ok(Invocation::Print(h)),
            Ok(Leaf::Args(_)) => Ok(Invocation::Print(owned("3\n"))),
        };
    }
    if str_eq(name, "discover") {
        return toggle_command(name, rest, "start", "stop", ControlRequest::Discover, ControlRequest::StopDiscovery);
    }
    if str_eq(name, "visibility") {
        return toggle_command(name, rest, "open", "close", ControlRequest::OpenVisibility, ControlRequest::CloseVisibility);
    }
    if str_eq(name, "daemon") {
        return match leaf(name, rest, "--log-level", "--simulate", 0) {
            Err(e) => Err(e),
            Ok(Leaf::Help(h)) => Ok(Invocation::Print(h)),
            Ok(Leaf::Args(st)) => match st.value {
                None => Ok(Invocation::StartDaemon { simulate: st.flag, log_level: LogLevel::Info }),
                Some(v) => match LogLevel::from_name(v.as_str()) {
                    Some(level) => Ok(Invocation::StartDaemon { simulate: st.flag, log_level: level }),
                    None => Err(CliError::InvalidValue(v)),
                },
            },
        };
    }
    group_command(name, rest, allowed)
}

/// Decides what one command line asks for, given the words after the
/// program name and whether the process opted in to simulator commands.
/// Help and version text come back as text to print; nothing here contacts
/// the local endpoint.
pub fn run(arguments: &[String], simulation_allowed: bool) -> (r: Result<Invocation, CliError>)
    ensures
        invocation_result_view(r) == run_spec(strings_view(arguments@), simulation_allowed),
{
    let ghost args = strings_view(arguments@);
    if arguments.len() == 0 {
        return Err(CliError::MissingCommand);
    }
    let first = arguments[0].as_str();
    assert(args[0] == first@);
    if str_eq(first, "-h") || str_eq(first, "--help") {
        return Ok(Invocation::Print(top_help_text()));
    }
    if str_eq(first, "-V") || str_eq(first, "--version") {
        return Ok(Invocation::Print(owned("omarchy-quickshare 0.1.0\n")));
    }
    if str_eq(first, "help") {
        if arguments.len() == 1 {
            return Ok(Invocation::Print(top_help_text()));
        }
        let second = arguments[1].as_str();
        assert(args[1] == second@);
        if command_named(second) {
            return Ok(Invocation::Print(command_help_text(second)));
        }
        return Err(CliError::InvalidSubcommand(owned(second)));
    }
    if command_named(first) {
        return command(first, tail(arguments), simulation_allowed);
    }
    if option_like(first) {
        return match action_request(arguments, simulation_allowed) {
            Ok(Some(q)) => Ok(Invocation::Control(q)),
            Ok(None) => Err(CliError::UnknownArgument(owned(first))),
            Err(ArgumentError::SimulationUnavailable) => Err(CliError::SimulationUnavailable),
            Err(e) => Err(CliError::FlagCommand(e)),
        };
    }
    if arguments.len() == 1 {
        return Ok(Invocation::Submit { content: owned(first), peer: None });
    }
    Err(CliError::InvalidSubcommand(owned(first)))
}

/// Submitting one bare argument is the same as the explicit `send` command:
/// a single word that names no command and is no option is sent as content,
/// with no chosen peer.
pub proof fn lemma_bare_word_is_send(word: Seq<char>, simulation_allowed: bool)
    requires
        !is_command(word),
        !is_option_like(word),
        word != "help"@,
    ensures
        run_spec(seq![word], simulation_allowed) == run_spec(seq!["send"@, word], simulation_allowed),
        run_spec(seq![word], simulation_allowed) == Ok::<InvocationView, CliErrorView>(InvocationView::Submit { content: word, peer: None }),
{
    reveal_strlit("send");
    reveal_strlit("-h");
    reveal_strlit("--help");
    reveal_strlit("-V");
    reveal_strlit("--version");
    reveal_strlit("help");
    let args = seq!["send"@, word];
    assert(!is_help_flag(word)) by {
        if word == "-h"@ || word == "--help"@ {
            assert(word[0] == '-');
        }
    }
    assert(!(word == "-V"@ || word == "--version"@)) by {
        if word == "-V"@ || word == "--version"@ {
            assert(word[0] == '-');
        }
    }
    assert(!is_help_flag(args[0]) && !(args[0] == "-V"@ || args[0] == "--version"@) && args[0] != "help"@) by {
        assert(args[0][0] == 's');
    }
    assert(is_command(args[0]));
    let rest = args.skip(1);
    assert(rest =~= seq![word]);
    let st = ScanView { positionals: empty_scan().positionals.push(word), ..empty_scan() };
    assert(scan_from(rest, 1, "--peer"@, ""@, st) == Ok::<ScanView, CliErrorView>(st));
    assert(scan_from(rest, 0, "--peer"@, ""@, empty_scan()) == scan_from(rest, 1, "--peer"@, ""@, st));
    assert(st.positionals =~= seq![word]);
}

/// On the whole command line, `--reject n` rejects share `n` and `--accept n`
/// accepts it, for every `u64` share identifier written in decimal.
pub proof fn lemma_share_flags_run_their_request(n: u64, simulation_allowed: bool)
    ensures
        run_spec(seq!["--reject"@, decimal(n as nat)], simulation_allowed)
            == Ok::<InvocationView, CliErrorView>(InvocationView::Control(RequestView::Reject { share_id: n })),
        run_spec(seq!["--accept"@, decimal(n as nat)], simulation_allowed)
            == Ok::<InvocationView, CliErrorView>(InvocationView::Control(RequestView::Accept { share_id: n })),
{
    let d = decimal(n as nat);
    lemma_share_flags_name_their_request(n, d, simulation_allowed);
    reveal_strlit("--reject");
    reveal_strlit("--accept");
    reveal_strlit("-h");
    reveal_strlit("--help");
    reveal_strlit("-V");
    reveal_strlit("--version");
    reveal_strlit("help");
    reveal_strlit("send");
    reveal_strlit("status");
    reveal_strlit("health");
    reveal_strlit("protocol-version");
    reveal_strlit("discover");
    reveal_strlit("visibility");
    reveal_strlit("peer");
    reveal_strlit("share");
    reveal_strlit("config");
    reveal_strlit("daemon");
    reveal_strlit("simulate");
    let r = seq!["--reject"@, d];
    let a = seq!["--accept"@, d];
    assert(r[0] == "--reject"@ && a[0] == "--accept"@);
    assert(r[0].len() == 8 && a[0].len() == 8);
    assert(r[0][0] == '-' && a[0][0] == '-');
    assert(!is_help_flag(r[0]) && !is_help_flag(a[0]));
    assert(r[0] != "-V"@ && r[0] != "--version"@ && r[0] != "help"@);
    assert(a[0] != "-V"@ && a[0] != "--version"@ && a[0] != "help"@);
    assert(!is_command(r[0])) by {
        assert("send"@[0] != '-' && "status"@[0] != '-' && "health"@[0] != '-');
        assert("protocol-version"@[0] != '-' && "discover"@[0] != '-' && "visibility"@[0] != '-');
        assert("peer"@[0] != '-' && "share"@[0] != '-' && "config"@[0] != '-');
        assert("daemon"@[0] != '-' && "simulate"@[0] != '-');
    }
    assert(!is_command(a[0])) by {
        assert("send"@[0] != '-' && "status"@[0] != '-' && "health"@[0] != '-');
        assert("protocol-version"@[0] != '-' && "discover"@[0] != '-' && "visibility"@[0] != '-');
        assert("peer"@[0] != '-' && "share"@[0] != '-' && "config"@[0] != '-');
        assert("daemon"@[0] != '-' && "simulate"@[0] != '-');
    }
    assert(is_option_like(r[0]) && is_option_like(a[0]));
}

} // verus!
