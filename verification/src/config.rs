//! User-visible endpoint settings stored as strict TOML.
//!
//! Only the documented keys are accepted; a missing file means defaults.
//! The consent deadline is read from `consent_timeout_secs`, or from the
//! documented `visibility_timeout_secs` when the former is absent, and is
//! shown as `visibility_timeout_secs`.

use vstd::prelude::*;
use vstd::utf8::encode_utf8;
use crate::request::{opt_view, parse_u64_spec, parse_u64};
use crate::text::{chars_of, copy_range, owned, push_decimal, push_str, seq_starts_with, str_eq, string_from_chars, trim, trim_range, decimal};

verus! {

/// Default outbound search window.
pub const DEFAULT_DISCOVERY_TIMEOUT_SECS: u64 = 15;
/// Default pending inbound consent deadline.
pub const DEFAULT_CONSENT_TIMEOUT_SECS: u64 = 300;
/// Default active-transfer deadline.
pub const DEFAULT_TRANSFER_TIMEOUT_SECS: u64 = 120;

/// A top-level TOML value as the settings reader distinguishes it.
#[derive(Debug)]
pub enum TomlItem {
    /// A string.
    Str(String),
    /// A boolean.
    Bool(bool),
    /// An integer.
    Int(i64),
    /// Any other value or a table.
    Other,
}

/// A TOML value with its string as characters.
pub ghost enum TomlItemView {
    Str(Seq<char>),
    Bool(bool),
    Int(i64),
    Other,
}

/// One top-level key of a TOML document.
#[derive(Debug)]
pub struct TomlEntry {
    /// The key.
    pub key: String,
    /// Its value.
    pub item: TomlItem,
}

/// A top-level key with its strings as characters.
pub ghost struct TomlEntryView {
    pub key: Seq<char>,
    pub item: TomlItemView,
}

impl View for TomlItem {
    type V = TomlItemView;

    open spec fn view(&self) -> TomlItemView {
        match self {
            TomlItem::Str(s) => TomlItemView::Str(s@),
            TomlItem::Bool(b) => TomlItemView::Bool(*b),
            TomlItem::Int(i) => TomlItemView::Int(*i),
            TomlItem::Other => TomlItemView::Other,
        }
    }
}

impl View for TomlEntry {
    type V = TomlEntryView;

    open spec fn view(&self) -> TomlEntryView {
        TomlEntryView { key: self.key@, item: self.item@ }
    }
}

/// The views of document entries.
pub open spec fn entries_view(entries: Seq<TomlEntry>) -> Seq<TomlEntryView> {
    entries.map_values(|e: TomlEntry| e@)
}

/// The top-level entries `toml_edit` reads from a document, in document
/// order; `None` when the text is not TOML.
pub uninterp spec fn toml_document(body: Seq<char>) -> Option<Seq<TomlEntryView>>;

/// The message of the error `toml_edit` gives for a text that is not TOML.
pub uninterp spec fn toml_parse_error(body: Seq<char>) -> Seq<char>;

/// The visible top-level entries a `toml_edit` document holds, in order.
pub uninterp spec fn document_entries(doc: toml_edit::DocumentMut) -> Seq<TomlEntryView>;

/// A `toml_edit` document, kept with its formatting.
#[verifier::external_type_specification]
#[verifier::external_body]
pub struct ExDocumentMut(toml_edit::DocumentMut);

/// Parses TOML with `toml_edit`.
///
/// Calls `<toml_edit::DocumentMut as FromStr>::from_str`. The entries of the
/// document are named as a function of the text alone; the empty text is the
/// empty document, and no root key appears twice (the parser refuses a
/// duplicate key). The error text is `toml_edit`'s parse error message,
/// named as a function of the text.
#[verifier::external_body]
fn parse_document(body: &str) -> (r: Result<toml_edit::DocumentMut, String>)
    ensures
        match r {
            Ok(doc) => toml_document(body@) == Some(document_entries(doc)),
            Err(message) => toml_document(body@) is None && message@ == toml_parse_error(body@),
        },
        r matches Ok(doc) ==> distinct_keys(document_entries(doc)),
        body@.len() == 0 ==> r is Ok,
        r matches Ok(doc) ==> (body@.len() == 0 ==> document_entries(doc).len() == 0),
{
    match body.parse::<toml_edit::DocumentMut>() {
        Ok(doc) => Ok(doc),
        Err(error) => Err(error.to_string()),
    }
}

/// Lists the root table of a document.
///
/// Calls `DocumentMut::iter` (which skips empty items) and reads each item
/// with `Item::as_str`, `as_bool` and `as_integer`.
#[verifier::external_body]
fn document_entries_of(doc: &toml_edit::DocumentMut) -> (r: Vec<TomlEntry>)
    ensures
        entries_view(r@) == document_entries(*doc),
{
    doc.iter().map(|(key, item)| TomlEntry {
        key: key.to_owned(),
        item: match (item.as_str(), item.as_bool(), item.as_integer()) {
            (Some(s), _, _) => TomlItem::Str(s.to_owned()),
            (_, Some(b), _) => TomlItem::Bool(b),
            (_, _, Some(i)) => TomlItem::Int(i),
            _ => TomlItem::Other,
        },
    }).collect()
}

/// `entries` with `key` set to `item`: replaced where the key is, appended
/// when it is new.
pub open spec fn with_entry(entries: Seq<TomlEntryView>, key: Seq<char>, item: TomlItemView) -> Seq<TomlEntryView> {
    let entry = TomlEntryView { key, item };
    if exists|i: int| 0 <= i < entries.len() && (#[trigger] entries[i]).key == key {
        entries.update(choose|i: int| 0 <= i < entries.len() && (#[trigger] entries[i]).key == key, entry)
    } else {
        entries.push(entry)
    }
}

/// The spaces and comments `toml_edit` keeps around a value.
#[verifier::external_type_specification]
#[verifier::external_body]
pub struct ExDecor(toml_edit::Decor);

/// The decoration of the value a root key holds.
///
/// Calls `DocumentMut::get` (through `Deref` to `Table`), `Item::as_value`,
/// `Value::decor` and `Decor::clone`: `Some` exactly when the key holds a
/// value (a string, boolean or integer among them), `None` when it is absent
/// or holds a table.
#[verifier::external_body]
fn previous_decor(doc: &toml_edit::DocumentMut, key: &str) -> (r: Option<toml_edit::Decor>)
    ensures
        r is Some ==> has_entry(document_entries(*doc), key@),
        (exists|i: int| 0 <= i < document_entries(*doc).len()
            && (#[trigger] document_entries(*doc)[i]).key == key@
            && !(document_entries(*doc)[i].item is Other)) ==> r is Some,
{
    doc.get(key).and_then(toml_edit::Item::as_value).map(|value| value.decor().clone())
}

/// Sets a root key of a document to a new value with default decoration.
///
/// Builds the value with `toml_edit::Value::from` and assigns it through
/// `IndexMut<&str> for DocumentMut`, which keeps an existing key's position
/// (an `IndexMap` entry) and appends a new one. A key the table holds with an
/// empty item is hidden from the entries yet keeps its slot; the parser never
/// stores such an item and these setters always store a value, so the
/// documents of this module hold none, and the contract speaks of them.
#[verifier::external_body]
fn set_document_value(doc: &mut toml_edit::DocumentMut, key: &str, item: &TomlItem)
    requires
        !(item is Other),
    ensures
        document_entries(*final(doc)) == with_entry(document_entries(*old(doc)), key@, item@),
{
    let replacement = match item {
        TomlItem::Str(s) => toml_edit::Value::from(s.as_str()),
        TomlItem::Bool(b) => toml_edit::Value::from(*b),
        TomlItem::Int(i) => toml_edit::Value::from(*i),
        TomlItem::Other => return,
    };
    doc[key] = toml_edit::Item::Value(replacement);
}

/// Sets a root key of a document to a new value that wears `decor`.
///
/// As `set_document_value`, with the value's decoration replaced through
/// `Value::decor_mut` before the assignment; decoration is spaces and
/// comments only and changes no entry.
#[verifier::external_body]
fn set_document_value_decorated(doc: &mut toml_edit::DocumentMut, key: &str, item: &TomlItem, decor: toml_edit::Decor)
    requires
        !(item is Other),
    ensures
        document_entries(*final(doc)) == with_entry(document_entries(*old(doc)), key@, item@),
{
    let mut replacement = match item {
        TomlItem::Str(s) => toml_edit::Value::from(s.as_str()),
        TomlItem::Bool(b) => toml_edit::Value::from(*b),
        TomlItem::Int(i) => toml_edit::Value::from(*i),
        TomlItem::Other => return,
    };
    *replacement.decor_mut() = decor;
    doc[key] = toml_edit::Item::Value(replacement);
}

/// Whether every entry holds a string, a boolean or an integer: a root of
/// plain values, with no table.
pub open spec fn plain_values(entries: Seq<TomlEntryView>) -> bool {
    forall|i: int| 0 <= i < entries.len() ==> !((#[trigger] entries[i]).item is Other)
}

/// Writes a document back as text with `DocumentMut`'s `Display`, which keeps
/// the original formatting.
///
/// For a root of plain values, `Display` writes each value as `key = value`
/// line in the table's order, with the keys and values as the parser or
/// `Value::from` represented them, so the text parses back to the same
/// entries. Nothing is stated of documents with tables.
#[verifier::external_body]
fn render_document(doc: &toml_edit::DocumentMut) -> (r: String)
    ensures
        plain_values(document_entries(*doc)) ==> toml_document(r@) == Some(document_entries(*doc)),
{
    doc.to_string()
}

/// How `toml_edit` writes a string as a TOML value.
pub uninterp spec fn toml_string_literal(s: Seq<char>) -> Seq<char>;

/// Writes `s` as a TOML string value.
///
/// Calls `toml_edit::Value::from(&str)` and its `Display`, which quotes and
/// escapes the text; the result is named as a function of the text.
#[verifier::external_body]
fn toml_quote(s: &str) -> (r: String)
    ensures
        r@ == toml_string_literal(s@),
{
    toml_edit::Value::from(s).to_string()
}

/// Why settings were refused.
#[derive(Debug)]
pub enum ConfigError {
    /// The document is not TOML; holds the parser's message.
    InvalidDocument(String),
    /// A documented key holds a value of the wrong type.
    InvalidValue(String),
    /// `receive_directory` is empty.
    EmptyReceiveDirectory,
    /// A key that is not documented.
    UnknownKey(String),
    /// `device_name` is longer than 255 bytes.
    DeviceNameTooLong,
    /// A boolean value is neither `true` nor `false`.
    InvalidBool,
    /// A timeout is not a non-negative integer; holds the value.
    InvalidTimeout(String),
    /// A timeout does not fit a TOML integer.
    TimeoutOutOfRange,
}

/// A settings error with its strings as characters.
pub ghost enum ConfigErrorView {
    InvalidDocument(Seq<char>),
    InvalidValue(Seq<char>),
    EmptyReceiveDirectory,
    UnknownKey(Seq<char>),
    DeviceNameTooLong,
    InvalidBool,
    InvalidTimeout(Seq<char>),
    TimeoutOutOfRange,
}

impl View for ConfigError {
    type V = ConfigErrorView;

    open spec fn view(&self) -> ConfigErrorView {
        match self {
            ConfigError::InvalidDocument(m) => ConfigErrorView::InvalidDocument(m@),
            ConfigError::InvalidValue(k) => ConfigErrorView::InvalidValue(k@),
            ConfigError::EmptyReceiveDirectory => ConfigErrorView::EmptyReceiveDirectory,
            ConfigError::UnknownKey(k) => ConfigErrorView::UnknownKey(k@),
            ConfigError::DeviceNameTooLong => ConfigErrorView::DeviceNameTooLong,
            ConfigError::InvalidBool => ConfigErrorView::InvalidBool,
            ConfigError::InvalidTimeout(v) => ConfigErrorView::InvalidTimeout(v@),
            ConfigError::TimeoutOutOfRange => ConfigErrorView::TimeoutOutOfRange,
        }
    }
}

/// Strict local settings for the endpoint.
#[derive(Debug)]
pub struct Config {
    /// Pending inbound consent deadline captured when an offer arrives.
    pub consent_timeout_secs: u64,
    /// Optional device name advertised instead of the system hostname.
    pub device_name: Option<String>,
    /// Whether saved policy allows inbound discovery.
    pub discoverable: bool,
    /// Outbound search deadline in seconds.
    pub discovery_timeout_secs: u64,
    /// Preferred peer identifier persisted across restarts.
    pub pinned_peer_id: Option<String>,
    /// Whether the picker may read the clipboard when selecting.
    pub read_clipboard_on_select: bool,
    /// Directory that receives completed inbound files.
    pub receive_directory: String,
    /// Active-transfer deadline in seconds.
    pub transfer_timeout_secs: u64,
}

/// Settings with their strings as characters.
pub ghost struct ConfigView {
    pub consent_timeout_secs: u64,
    pub device_name: Option<Seq<char>>,
    pub discoverable: bool,
    pub discovery_timeout_secs: u64,
    pub pinned_peer_id: Option<Seq<char>>,
    pub read_clipboard_on_select: bool,
    pub receive_directory: Seq<char>,
    pub transfer_timeout_secs: u64,
}

impl View for Config {
    type V = ConfigView;

    open spec fn view(&self) -> ConfigView {
        ConfigView {
            consent_timeout_secs: self.consent_timeout_secs,
            device_name: opt_view(self.device_name),
            discoverable: self.discoverable,
            discovery_timeout_secs: self.discovery_timeout_secs,
            pinned_peer_id: opt_view(self.pinned_peer_id),
            read_clipboard_on_select: self.read_clipboard_on_select,
            receive_directory: self.receive_directory@,
            transfer_timeout_secs: self.transfer_timeout_secs,
        }
    }
}

/// The documented defaults with the given receive directory.
pub open spec fn default_config(receive_directory: Seq<char>) -> ConfigView {
    ConfigView {
        consent_timeout_secs: DEFAULT_CONSENT_TIMEOUT_SECS,
        device_name: None,
        discoverable: false,
        discovery_timeout_secs: DEFAULT_DISCOVERY_TIMEOUT_SECS,
        pinned_peer_id: None,
        read_clipboard_on_select: false,
        receive_directory,
        transfer_timeout_secs: DEFAULT_TRANSFER_TIMEOUT_SECS,
    }
}

/// `base` joined with `rel` as `PathBuf::join` does: an absolute `rel`
/// replaces `base`, and a separator is added unless `base` is empty or ends
/// with one.
pub open spec fn path_join(base: Seq<char>, rel: Seq<char>) -> Seq<char> {
    if rel.len() > 0 && rel[0] == '/' {
        rel
    } else if base.len() == 0 {
        rel
    } else if base.last() == '/' {
        base + rel
    } else {
        base + seq!['/'] + rel
    }
}

/// Expands a leading `~` with the home directory, when one is known.
pub open spec fn expand_user_spec(path: Seq<char>, home: Option<Seq<char>>) -> Seq<char> {
    match home {
        None => path,
        Some(h) => if path == seq!['~'] {
            h
        } else if seq_starts_with(path, seq!['~', '/']) {
            path_join(h, path.skip(2))
        } else {
            path
        },
    }
}

/// Joins two paths as `PathBuf::join` does.
pub fn join_path(base: &str, rel: &str) -> (r: String)
    ensures
        r@ == path_join(base@, rel@),
{
    let b = chars_of(base);
    let rchars = chars_of(rel);
    if rchars.len() > 0 && rchars[0] == '/' {
        return owned(rel);
    }
    if b.len() == 0 {
        return owned(rel);
    }
    let mut out = b.clone();
    if b[b.len() - 1] != '/' {
        out.push('/');
    }
    push_str(&mut out, rel);
    string_from_chars(out.as_slice())
}

/// Expands a leading `~` using the home directory.
pub fn expand_user(path: &str, home: Option<&str>) -> (r: String)
    ensures
        r@ == expand_user_spec(path@, match home {
            Some(h) => Some(h@),
            None => None,
        }),
{
    let home = match home {
        Some(h) => h,
        None => return owned(path),
    };
    let chars = chars_of(path);
    if chars.len() == 1 && chars[0] == '~' {
        assert(path@ =~= seq!['~']);
        return owned(home);
    }
    if chars.len() >= 2 && chars[0] == '~' && chars[1] == '/' {
        assert(path@.take(2) =~= seq!['~', '/']);
        let rest = copy_range(&chars, 2, chars.len());
        assert(rest@ =~= path@.skip(2));
        let rest_text = string_from_chars(rest.as_slice());
        return join_path(home, rest_text.as_str());
    }
    proof {
        if path@.len() >= 2 && path@.take(2) == seq!['~', '/'] {
            assert(path@.take(2)[0] == path@[0]);
            assert(path@.take(2)[1] == path@[1]);
        }
        if path@ == seq!['~'] {
            assert(path@[0] == '~');
        }
    }
    owned(path)
}

/// The characters of `omarchy-quickshare`.
pub open spec fn app_dir_name() -> Seq<char> {
    "omarchy-quickshare"@
}

/// The characters of `~/Downloads/omarchy-quickshare`.
pub open spec fn default_downloads() -> Seq<char> {
    "~/Downloads/omarchy-quickshare"@
}

/// The default inbound destination: `$XDG_DOWNLOAD_DIR/omarchy-quickshare`
/// when that variable is non-empty, else `~/Downloads/omarchy-quickshare`.
pub open spec fn default_receive_directory_spec(xdg_download_dir: Option<Seq<char>>, home: Option<Seq<char>>) -> Seq<char> {
    match xdg_download_dir {
        Some(d) => if d.len() > 0 {
            path_join(d, app_dir_name())
        } else {
            expand_user_spec(default_downloads(), home)
        },
        None => expand_user_spec(default_downloads(), home),
    }
}

/// The view of an optional string slice.
pub open spec fn opt_str_view(s: Option<&str>) -> Option<Seq<char>> {
    match s {
        Some(v) => Some(v@),
        None => None,
    }
}

/// Returns the default inbound destination under the user's downloads
/// directory, given `$XDG_DOWNLOAD_DIR` and `$HOME`.
pub fn default_receive_directory(xdg_download_dir: Option<&str>, home: Option<&str>) -> (r: String)
    ensures
        r@ == default_receive_directory_spec(opt_str_view(xdg_download_dir), opt_str_view(home)),
{
    match xdg_download_dir {
        Some(d) => {
            if chars_of(d).len() > 0 {
                return join_path(d, "omarchy-quickshare");
            }
        },
        None => {},
    }
    expand_user("~/Downloads/omarchy-quickshare", home)
}

/// Treats a blank string as an unset optional value.
pub open spec fn non_empty_spec(value: Seq<char>) -> Option<Seq<char>> {
    if trim(value).len() == 0 { None } else { Some(trim(value)) }
}

/// Treats an empty string as an unset optional value.
pub fn non_empty(value: &str) -> (r: Option<String>)
    ensures
        opt_view(r) == non_empty_spec(value@),
{
    let chars = chars_of(value);
    assert(chars@.subrange(0, chars@.len() as int) =~= chars@);
    let (a, b) = trim_range(&chars, 0, chars.len());
    if a == b {
        return None;
    }
    let trimmed = copy_range(&chars, a, b);
    Some(string_from_chars(trimmed.as_slice()))
}

/// An optional device name that fits the wire advertisement.
pub open spec fn device_name_spec(value: Seq<char>) -> Result<Option<Seq<char>>, ConfigErrorView> {
    match non_empty_spec(value) {
        Some(name) => if encode_utf8(name).len() > 255 {
            Err(ConfigErrorView::DeviceNameTooLong)
        } else {
            Ok(Some(name))
        },
        None => Ok(None),
    }
}

/// Parses an optional endpoint name that fits the wire advertisement.
pub fn parse_device_name(value: &str) -> (r: Result<Option<String>, ConfigError>)
    ensures
        match r {
            Ok(name) => device_name_spec(value@) == Ok::<Option<Seq<char>>, ConfigErrorView>(opt_view(name)),
            Err(e) => device_name_spec(value@) == Err::<Option<Seq<char>>, ConfigErrorView>(e@),
        },
{
    let name = non_empty(value);
    match name {
        Some(n) => {
            if n.as_str().as_bytes().len() > 255 {
                Err(ConfigError::DeviceNameTooLong)
            } else {
                Ok(Some(n))
            }
        },
        None => Ok(None),
    }
}

/// A timeout in seconds as `parse_timeout` reads it.
pub open spec fn timeout_spec(value: Seq<char>) -> Result<u64, ConfigErrorView> {
    match parse_u64_spec(encode_utf8(value)) {
        Some(v) => Ok(v),
        None => Err(ConfigErrorView::InvalidTimeout(value)),
    }
}

/// Parses a non-negative timeout in seconds.
pub fn parse_timeout(value: &str) -> (r: Result<u64, ConfigError>)
    ensures
        match r {
            Ok(v) => timeout_spec(value@) == Ok::<u64, ConfigErrorView>(v),
            Err(e) => timeout_spec(value@) == Err::<u64, ConfigErrorView>(e@),
        },
{
    match parse_u64(value) {
        Some(v) => Ok(v),
        None => Err(ConfigError::InvalidTimeout(owned(value))),
    }
}

/// Settings after one more document entry.
pub open spec fn apply_entry(
    cfg: ConfigView,
    entry: TomlEntryView,
    has_consent_key: bool,
    home: Option<Seq<char>>,
) -> Result<ConfigView, ConfigErrorView> {
    let key = entry.key;
    let invalid = ConfigErrorView::InvalidValue(key);
    if key == "device_name"@ {
        match entry.item {
            TomlItemView::Str(s) => match device_name_spec(s) {
                Ok(name) => Ok(ConfigView { device_name: name, ..cfg }),
                Err(e) => Err(e),
            },
            _ => Err(invalid),
        }
    } else if key == "pinned_peer_id"@ {
        match entry.item {
            TomlItemView::Str(s) => Ok(ConfigView { pinned_peer_id: non_empty_spec(s), ..cfg }),
            _ => Err(invalid),
        }
    } else if key == "receive_directory"@ {
        match entry.item {
            TomlItemView::Str(s) => if s.len() == 0 {
                Err(ConfigErrorView::EmptyReceiveDirectory)
            } else {
                Ok(ConfigView { receive_directory: expand_user_spec(s, home), ..cfg })
            },
            _ => Err(invalid),
        }
    } else if key == "discoverable"@ {
        match entry.item {
            TomlItemView::Bool(b) => Ok(ConfigView { discoverable: b, ..cfg }),
            _ => Err(invalid),
        }
    } else if key == "read_clipboard_on_select"@ {
        match entry.item {
            TomlItemView::Bool(b) => Ok(ConfigView { read_clipboard_on_select: b, ..cfg }),
            _ => Err(invalid),
        }
    } else if key == "consent_timeout_secs"@ || key == "discovery_timeout_secs"@
        || key == "visibility_timeout_secs"@ || key == "transfer_timeout_secs"@ {
        match entry.item {
            TomlItemView::Int(i) => if i < 0 {
                Err(invalid)
            } else if key == "consent_timeout_secs"@ {
                Ok(ConfigView { consent_timeout_secs: i as u64, ..cfg })
            } else if key == "discovery_timeout_secs"@ {
                Ok(ConfigView { discovery_timeout_secs: i as u64, ..cfg })
            } else if key == "visibility_timeout_secs"@ {
                if has_consent_key { Ok(cfg) } else { Ok(ConfigView { consent_timeout_secs: i as u64, ..cfg }) }
            } else {
                Ok(ConfigView { transfer_timeout_secs: i as u64, ..cfg })
            },
            _ => Err(invalid),
        }
    } else {
        Err(ConfigErrorView::UnknownKey(key))
    }
}

/// Settings after the document entries in order, stopping at the first error.
pub open spec fn apply_entries(
    defaults: ConfigView,
    entries: Seq<TomlEntryView>,
    has_consent_key: bool,
    home: Option<Seq<char>>,
) -> Result<ConfigView, ConfigErrorView>
    decreases entries.len(),
{
    if entries.len() == 0 {
        Ok(defaults)
    } else {
        match apply_entries(defaults, entries.drop_last(), has_consent_key, home) {
            Ok(cfg) => apply_entry(cfg, entries.last(), has_consent_key, home),
            Err(e) => Err(e),
        }
    }
}

/// Whether the document sets `key`.
pub open spec fn has_entry(entries: Seq<TomlEntryView>, key: Seq<char>) -> bool {
    exists|i: int| 0 <= i < entries.len() && (#[trigger] entries[i]).key == key
}

/// Whether the document sets `consent_timeout_secs`.
pub open spec fn has_consent_key(entries: Seq<TomlEntryView>) -> bool {
    has_entry(entries, "consent_timeout_secs"@)
}

/// Whether a document's entries set `key`.
fn has_key(entries: &Vec<TomlEntry>, key: &str) -> (r: bool)
    ensures
        r == has_entry(entries_view(entries@), key@),
{
    let ghost ev = entries_view(entries@);
    let mut found = false;
    let mut i: usize = 0;
    while i < entries.len()
        invariant
            i <= entries@.len(),
            ev == entries_view(entries@),
            found == exists|j: int| 0 <= j < i && (#[trigger] ev[j]).key == key@,
        decreases entries@.len() - i,
    {
        let here = str_eq(entries[i].key.as_str(), key);
        proof {
            assert(ev[i as int] == entries@[i as int]@);
        }
        found = found || here;
        i = i + 1;
    }
    found
}

/// The settings a document holds: the defaults updated by each documented
/// key, refusing undocumented keys and mistyped values.
pub open spec fn from_document_spec(
    entries: Seq<TomlEntryView>,
    home: Option<Seq<char>>,
    receive_directory: Seq<char>,
) -> Result<ConfigView, ConfigErrorView> {
    apply_entries(default_config(receive_directory), entries, has_consent_key(entries), home)
}

/// The view of a settings result.
pub open spec fn config_result_view(r: Result<Config, ConfigError>) -> Result<ConfigView, ConfigErrorView> {
    match r {
        Ok(c) => Ok(c@),
        Err(e) => Err(e@),
    }
}

impl Config {
    /// The documented defaults with the given receive directory.
    pub fn with_receive_directory(receive_directory: String) -> (r: Config)
        ensures
            r@ == default_config(receive_directory@),
    {
        Config {
            consent_timeout_secs: DEFAULT_CONSENT_TIMEOUT_SECS,
            device_name: None,
            discoverable: false,
            discovery_timeout_secs: DEFAULT_DISCOVERY_TIMEOUT_SECS,
            pinned_peer_id: None,
            read_clipboard_on_select: false,
            receive_directory,
            transfer_timeout_secs: DEFAULT_TRANSFER_TIMEOUT_SECS,
        }
    }

    /// Applies one document entry.
    fn apply(&mut self, entry: &TomlEntry, has_consent_key: bool, home: Option<&str>) -> (r: Result<(), ConfigError>)
        ensures
            match apply_entry(old(self)@, entry@, has_consent_key, opt_str_view(home)) {
                Ok(cfg) => r is Ok && final(self)@ == cfg,
                Err(e) => r is Err && r->Err_0@ == e,
            },
    {
        let key = entry.key.as_str();
        if str_eq(key, "device_name") {
            return match &entry.item {
                TomlItem::Str(s) => match parse_device_name(s.as_str()) {
                    Ok(name) => {
                        self.device_name = name;
                        Ok(())
                    },
                    Err(e) => Err(e),
                },
                _ => Err(ConfigError::InvalidValue(owned(key))),
            };
        }
        if str_eq(key, "pinned_peer_id") {
            return match &entry.item {
                TomlItem::Str(s) => {
                    self.pinned_peer_id = non_empty(s.as_str());
                    Ok(())
                },
                _ => Err(ConfigError::InvalidValue(owned(key))),
            };
        }
        if str_eq(key, "receive_directory") {
            return match &entry.item {
                TomlItem::Str(s) => {
                    if chars_of(s.as_str()).len() == 0 {
                        Err(ConfigError::EmptyReceiveDirectory)
                    } else {
                        self.receive_directory = expand_user(s.as_str(), home);
                        Ok(())
                    }
                },
                _ => Err(ConfigError::InvalidValue(owned(key))),
            };
        }
        if str_eq(key, "discoverable") {
            return match &entry.item {
                TomlItem::Bool(b) => {
                    self.discoverable = *b;
                    Ok(())
                },
                _ => Err(ConfigError::InvalidValue(owned(key))),
            };
        }
        if str_eq(key, "read_clipboard_on_select") {
            return match &entry.item {
                TomlItem::Bool(b) => {
                    self.read_clipboard_on_select = *b;
                    Ok(())
                },
                _ => Err(ConfigError::InvalidValue(owned(key))),
            };
        }
        let consent = str_eq(key, "consent_timeout_secs");
        let discovery = str_eq(key, "discovery_timeout_secs");
        let visibility = str_eq(key, "visibility_timeout_secs");
        let transfer = str_eq(key, "transfer_timeout_secs");
        if consent || discovery || visibility || transfer {
            let timeout: u64 = match &entry.item {
                TomlItem::Int(i) => {
                    if *i < 0 {
                        return Err(ConfigError::InvalidValue(owned(key)));
                    }
                    *i as u64
                },
                _ => return Err(ConfigError::InvalidValue(owned(key))),
            };
            if consent {
                self.consent_timeout_secs = timeout;
            } else if discovery {
                self.discovery_timeout_secs = timeout;
            } else if visibility {
                if !has_consent_key {
                    self.consent_timeout_secs = timeout;
                }
            } else {
                self.transfer_timeout_secs = timeout;
            }
            return Ok(());
        }
        Err(ConfigError::UnknownKey(owned(key)))
    }

    /// Validates every setting of a document without accepting undocumented
    /// keys. `home` expands a leading `~`; `receive_directory` is the default
    /// destination.
    pub fn from_document(entries: &Vec<TomlEntry>, home: Option<&str>, receive_directory: String) -> (r: Result<Config, ConfigError>)
        ensures
            config_result_view(r) == from_document_spec(entries_view(entries@), opt_str_view(home), receive_directory@),
    {
        let ghost ev = entries_view(entries@);
        let has_consent = has_key(entries, "consent_timeout_secs");
        let ghost rd = receive_directory@;
        let mut config = Config::with_receive_directory(receive_directory);
        let ghost defaults = config@;
        let mut k: usize = 0;
        while k < entries.len()
            invariant
                k <= entries@.len(),
                ev == entries_view(entries@),
                has_consent == has_consent_key(ev),
                defaults == default_config(rd),
                rd == receive_directory@,
                apply_entries(defaults, ev.take(k as int), has_consent, opt_str_view(home)) == Ok::<ConfigView, ConfigErrorView>(config@),
            decreases entries@.len() - k,
        {
            assert(ev.take(k + 1).drop_last() =~= ev.take(k as int));
            assert(ev.take(k + 1).last() == entries@[k as int]@);
            let ghost before = config@;
            match config.apply(&entries[k], has_consent, home) {
                Ok(()) => {},
                Err(e) => {
                    proof {
                        let prefix = ev.take(k + 1);
                        assert(apply_entries(defaults, prefix, has_consent, opt_str_view(home))
                            == apply_entry(before, ev[k as int], has_consent, opt_str_view(home)));
                        lemma_apply_entries_stops(defaults, ev, k as int + 1, has_consent, opt_str_view(home));
                        assert(apply_entries(defaults, ev, has_consent, opt_str_view(home)) == Err::<ConfigView, ConfigErrorView>(e@));
                        assert(from_document_spec(ev, opt_str_view(home), rd) == Err::<ConfigView, ConfigErrorView>(e@));
                    }
                    return Err(e);
                },
            }
            k = k + 1;
        }
        assert(ev.take(entries@.len() as int) =~= ev);
        Ok(config)
    }
}

/// Whether `key` is one of the documented settings.
pub open spec fn is_documented_key(key: Seq<char>) -> bool {
    key == "device_name"@ || key == "pinned_peer_id"@ || key == "receive_directory"@
        || key == "discoverable"@ || key == "read_clipboard_on_select"@
        || key == "consent_timeout_secs"@ || key == "discovery_timeout_secs"@
        || key == "visibility_timeout_secs"@ || key == "transfer_timeout_secs"@
}

/// Settings are strict: a document that holds any undocumented key is
/// refused, whatever else it holds.
pub proof fn lemma_undocumented_key_refused(
    entries: Seq<TomlEntryView>,
    home: Option<Seq<char>>,
    receive_directory: Seq<char>,
    i: int,
)
    requires
        0 <= i < entries.len(),
        !is_documented_key(entries[i].key),
    ensures
        from_document_spec(entries, home, receive_directory) is Err,
{
    let defaults = default_config(receive_directory);
    let has = has_consent_key(entries);
    let prefix = entries.take(i + 1);
    assert(prefix.drop_last() =~= entries.take(i));
    assert(prefix.last() == entries[i]);
    assert(apply_entries(defaults, prefix, has, home) is Err);
    lemma_apply_entries_stops(defaults, entries, i + 1, has, home);
}

/// No key appears twice among the entries, as in every TOML table.
pub open spec fn distinct_keys(entries: Seq<TomlEntryView>) -> bool {
    forall|i: int, j: int| 0 <= i < j < entries.len() ==> (#[trigger] entries[i]).key != (#[trigger] entries[j]).key
}

/// The settings after one more entry, unless an earlier entry was refused.
pub open spec fn then_entry(
    r: Result<ConfigView, ConfigErrorView>,
    entry: TomlEntryView,
    has_consent_key: bool,
    home: Option<Seq<char>>,
) -> Result<ConfigView, ConfigErrorView> {
    match r {
        Ok(cfg) => apply_entry(cfg, entry, has_consent_key, home),
        Err(e) => Err(e),
    }
}

/// Whether an entry is refused depends on the entry alone, not on the
/// settings it is applied to.
proof fn lemma_entry_refusal_is_local(c1: ConfigView, c2: ConfigView, e: TomlEntryView, hc: bool, home: Option<Seq<char>>)
    ensures
        apply_entry(c1, e, hc, home) is Ok <==> apply_entry(c2, e, hc, home) is Ok,
        apply_entry(c1, e, hc, home) is Err ==> apply_entry(c1, e, hc, home) == apply_entry(c2, e, hc, home),
{
}

/// Two entries with different keys give the same settings in either order
/// once `consent_timeout_secs` is present.
proof fn lemma_entries_commute(c: ConfigView, a: TomlEntryView, b: TomlEntryView, home: Option<Seq<char>>)
    requires
        a.key != b.key,
        apply_entry(c, a, true, home) is Ok,
        apply_entry(c, b, true, home) is Ok,
    ensures
        then_entry(apply_entry(c, a, true, home), b, true, home) == then_entry(apply_entry(c, b, true, home), a, true, home),
        then_entry(apply_entry(c, a, true, home), b, true, home) is Ok,
{
    lemma_entry_refusal_is_local(c, apply_entry(c, a, true, home)->Ok_0, b, true, home);
    lemma_entry_refusal_is_local(c, apply_entry(c, b, true, home)->Ok_0, a, true, home);
}

/// A later entry with the same key overrides an earlier one.
proof fn lemma_entry_overrides(c: ConfigView, a: TomlEntryView, b: TomlEntryView, home: Option<Seq<char>>)
    requires
        a.key == b.key,
        apply_entry(c, a, true, home) is Ok,
    ensures
        then_entry(apply_entry(c, a, true, home), b, true, home) == apply_entry(c, b, true, home),
{
    lemma_entry_refusal_is_local(c, apply_entry(c, a, true, home)->Ok_0, b, true, home);
}

/// Replacing the value of one key in a document with distinct keys gives the
/// settings of the original document with that one entry applied last.
proof fn lemma_replace_entry(
    defaults: ConfigView,
    entries: Seq<TomlEntryView>,
    i: int,
    e: TomlEntryView,
    home: Option<Seq<char>>,
)
    requires
        distinct_keys(entries),
        0 <= i < entries.len(),
        entries[i].key == e.key,
        apply_entries(defaults, entries, true, home) is Ok,
        apply_entries(defaults, entries.update(i, e), true, home) is Ok,
    ensures
        apply_entries(defaults, entries.update(i, e), true, home)
            == apply_entry(apply_entries(defaults, entries, true, home)->Ok_0, e, true, home),
    decreases entries.len(),
{
    let n = entries.len();
    let changed = entries.update(i, e);
    let prefix = entries.drop_last();
    let before = apply_entries(defaults, prefix, true, home);
    assert(before is Ok);
    if i == n - 1 {
        assert(changed.drop_last() =~= prefix);
        assert(changed.last() == e);
        lemma_entry_overrides(before->Ok_0, entries.last(), e, home);
    } else {
        assert(changed.drop_last() =~= prefix.update(i, e));
        assert(changed.last() == entries.last());
        assert(entries.last().key != e.key) by {
            assert(entries[i].key != entries[n - 1].key);
        }
        assert(distinct_keys(prefix)) by {
            assert forall|a: int, b: int| 0 <= a < b < prefix.len() implies (#[trigger] prefix[a]).key != (#[trigger] prefix[b]).key by {
                assert(prefix[a] == entries[a] && prefix[b] == entries[b]);
            }
        }
        assert(apply_entries(defaults, prefix.update(i, e), true, home) is Ok);
        lemma_replace_entry(defaults, prefix, i, e, home);
        lemma_entries_commute(before->Ok_0, e, entries.last(), home);
    }
}

/// Documents without `consent_timeout_secs` are refused alike whether or not
/// `visibility_timeout_secs` counts, and otherwise give the same settings
/// but for the consent deadline.
proof fn lemma_consent_flag(defaults: ConfigView, entries: Seq<TomlEntryView>, home: Option<Seq<char>>)
    requires
        !has_consent_key(entries),
    ensures
        match (apply_entries(defaults, entries, false, home), apply_entries(defaults, entries, true, home)) {
            (Ok(a), Ok(b)) => a == (ConfigView { consent_timeout_secs: a.consent_timeout_secs, ..b }),
            (Err(x), Err(y)) => x == y,
            _ => false,
        },
    decreases entries.len(),
{
    if entries.len() > 0 {
        let prefix = entries.drop_last();
        assert(!has_consent_key(prefix)) by {
            if has_consent_key(prefix) {
                let k = choose|k: int| 0 <= k < prefix.len() && (#[trigger] prefix[k]).key == "consent_timeout_secs"@;
                assert(entries[k] == prefix[k]);
            }
        }
        assert(entries.last().key != "consent_timeout_secs"@) by {
            assert(entries[entries.len() - 1] == entries.last());
        }
        lemma_consent_flag(defaults, prefix, home);
    }
}

/// A successful patch changes only the setting it names: the result is the
/// current settings with the patched entry applied, every other setting
/// kept. `entries` is the document as read, whose keys are distinct.
pub proof fn lemma_patch_keeps_other_settings(
    entries: Seq<TomlEntryView>,
    key: Seq<char>,
    item: TomlItemView,
    home: Option<Seq<char>>,
    receive_directory: Seq<char>,
)
    requires
        distinct_keys(entries),
        from_document_spec(entries, home, receive_directory) is Ok,
        !has_consent_key(entries)
            ==> from_document_spec(entries, home, receive_directory)->Ok_0.consent_timeout_secs <= i64::MAX,
        from_document_spec(
            patched_entries(entries, from_document_spec(entries, home, receive_directory)->Ok_0, key, item),
            home,
            receive_directory,
        ) is Ok,
    ensures
        from_document_spec(
            patched_entries(entries, from_document_spec(entries, home, receive_directory)->Ok_0, key, item),
            home,
            receive_directory,
        ) == apply_entry(from_document_spec(entries, home, receive_directory)->Ok_0, TomlEntryView { key, item }, true, home),
{
    let defaults = default_config(receive_directory);
    let current = from_document_spec(entries, home, receive_directory)->Ok_0;
    let consent_key = "consent_timeout_secs"@;
    let base = if has_consent_key(entries) {
        entries
    } else {
        with_entry(entries, consent_key, TomlItemView::Int(current.consent_timeout_secs as i64))
    };
    let e = TomlEntryView { key, item };
    let patched = with_entry(base, key, item);
    assert(patched == patched_entries(entries, current, key, item));
    // The base document holds `consent_timeout_secs`, has distinct keys, and
    // reads as the current settings.
    if !has_consent_key(entries) {
        let pin = TomlEntryView { key: consent_key, item: TomlItemView::Int(current.consent_timeout_secs as i64) };
        assert(!(exists|i: int| 0 <= i < entries.len() && (#[trigger] entries[i]).key == consent_key));
        assert(base == entries.push(pin));
        assert(base.drop_last() =~= entries);
        assert(base.last() == pin);
        lemma_consent_flag(defaults, entries, home);
        assert(has_consent_key(base)) by {
            assert(base[entries.len() as int].key == consent_key);
        }
        assert(distinct_keys(base)) by {
            assert forall|a: int, b: int| 0 <= a < b < base.len() implies (#[trigger] base[a]).key != (#[trigger] base[b]).key by {
                if b == entries.len() {
                    assert(base[a] == entries[a]);
                    if base[a].key == consent_key {
                        assert(entries[a].key == consent_key);
                    }
                } else {
                    assert(base[a] == entries[a] && base[b] == entries[b]);
                }
            }
        }
        assert(apply_entries(defaults, entries, false, home) == Ok::<ConfigView, ConfigErrorView>(current));
        let b = apply_entries(defaults, entries, true, home)->Ok_0;
        assert(apply_entries(defaults, entries, true, home) is Ok);
        assert(current == (ConfigView { consent_timeout_secs: current.consent_timeout_secs, ..b }));
        reveal_strlit("device_name");
        reveal_strlit("pinned_peer_id");
        reveal_strlit("receive_directory");
        reveal_strlit("discoverable");
        reveal_strlit("read_clipboard_on_select");
        reveal_strlit("consent_timeout_secs");
        let pinned = current.consent_timeout_secs as i64;
        assert(pinned >= 0 && pinned as u64 == current.consent_timeout_secs);
        assert(pin.key == "consent_timeout_secs"@);
        assert(pin.key.len() != "device_name"@.len());
        assert(pin.key.len() != "pinned_peer_id"@.len());
        assert(pin.key != "receive_directory"@);
        assert(pin.key != "discoverable"@);
        assert(pin.key != "read_clipboard_on_select"@);
        assert(pin.item == TomlItemView::Int(pinned));
        assert(apply_entry(b, pin, true, home) == Ok::<ConfigView, ConfigErrorView>(
            ConfigView { consent_timeout_secs: pinned as u64, ..b },
        ));
        assert(apply_entries(defaults, base, true, home) == apply_entry(b, pin, true, home));
        assert(apply_entries(defaults, base, true, home) == Ok::<ConfigView, ConfigErrorView>(current));
    }
    assert(has_consent_key(base));
    assert(distinct_keys(base));
    assert(apply_entries(defaults, base, true, home) == Ok::<ConfigView, ConfigErrorView>(current));
    // Setting the key keeps `consent_timeout_secs` present.
    if exists|i: int| 0 <= i < base.len() && (#[trigger] base[i]).key == key {
        let i = choose|i: int| 0 <= i < base.len() && (#[trigger] base[i]).key == key;
        assert(patched == base.update(i, e));
        assert(has_consent_key(patched)) by {
            let k = choose|k: int| 0 <= k < base.len() && (#[trigger] base[k]).key == consent_key;
            assert(patched[k].key == consent_key);
        }
        lemma_replace_entry(defaults, base, i, e, home);
    } else {
        assert(patched == base.push(e));
        assert(has_consent_key(patched)) by {
            let k = choose|k: int| 0 <= k < base.len() && (#[trigger] base[k]).key == consent_key;
            assert(patched[k].key == consent_key);
        }
        assert(patched.drop_last() =~= base);
        assert(patched.last() == e);
    }
}

/// Once an entry is refused, the whole document is refused with that error.
proof fn lemma_apply_entries_stops(
    defaults: ConfigView,
    entries: Seq<TomlEntryView>,
    k: int,
    has_consent: bool,
    home: Option<Seq<char>>,
)
    requires
        0 <= k <= entries.len(),
        apply_entries(defaults, entries.take(k), has_consent, home) is Err,
    ensures
        apply_entries(defaults, entries, has_consent, home) == apply_entries(defaults, entries.take(k), has_consent, home),
    decreases entries.len(),
{
    if k == entries.len() {
        assert(entries.take(k) =~= entries);
    } else {
        assert(entries.drop_last().take(k) =~= entries.take(k));
        lemma_apply_entries_stops(defaults, entries.drop_last(), k, has_consent, home);
    }
}

/// A string value, or the empty string for an unset one.
pub open spec fn or_empty(value: Option<Seq<char>>) -> Seq<char> {
    match value {
        Some(v) => v,
        None => Seq::empty(),
    }
}

/// The TOML value a command-line or control request stores for `key`.
pub open spec fn patch_value_spec(key: Seq<char>, value: Seq<char>, home: Option<Seq<char>>) -> Result<TomlItemView, ConfigErrorView> {
    if key == "device_name"@ {
        match device_name_spec(value) {
            Ok(name) => Ok(TomlItemView::Str(or_empty(name))),
            Err(e) => Err(e),
        }
    } else if key == "pinned_peer_id"@ {
        Ok(TomlItemView::Str(or_empty(non_empty_spec(value))))
    } else if key == "receive_directory"@ {
        Ok(TomlItemView::Str(expand_user_spec(value, home)))
    } else if key == "discoverable"@ || key == "read_clipboard_on_select"@ {
        if value == "true"@ {
            Ok(TomlItemView::Bool(true))
        } else if value == "false"@ {
            Ok(TomlItemView::Bool(false))
        } else {
            Err(ConfigErrorView::InvalidBool)
        }
    } else if key == "consent_timeout_secs"@ || key == "discovery_timeout_secs"@ || key == "transfer_timeout_secs"@ {
        match timeout_spec(value) {
            Ok(t) => if t > i64::MAX {
                Err(ConfigErrorView::TimeoutOutOfRange)
            } else {
                Ok(TomlItemView::Int(t as i64))
            },
            Err(e) => Err(e),
        }
    } else {
        Err(ConfigErrorView::UnknownKey(key))
    }
}

/// The view of a value result.
pub open spec fn item_result_view(r: Result<TomlItem, ConfigError>) -> Result<TomlItemView, ConfigErrorView> {
    match r {
        Ok(i) => Ok(i@),
        Err(e) => Err(e@),
    }
}

/// Converts a command-line or control string value to the setting's TOML
/// type.
pub fn patch_value(key: &str, value: &str, home: Option<&str>) -> (r: Result<TomlItem, ConfigError>)
    ensures
        item_result_view(r) == patch_value_spec(key@, value@, opt_str_view(home)),
        r matches Ok(item) ==> !(item is Other),
{
    if str_eq(key, "device_name") {
        return match parse_device_name(value) {
            Ok(Some(name)) => Ok(TomlItem::Str(name)),
            Ok(None) => Ok(TomlItem::Str(String::new())),
            Err(e) => Err(e),
        };
    }
    if str_eq(key, "pinned_peer_id") {
        return match non_empty(value) {
            Some(id) => Ok(TomlItem::Str(id)),
            None => Ok(TomlItem::Str(String::new())),
        };
    }
    if str_eq(key, "receive_directory") {
        return Ok(TomlItem::Str(expand_user(value, home)));
    }
    if str_eq(key, "discoverable") || str_eq(key, "read_clipboard_on_select") {
        if str_eq(value, "true") {
            return Ok(TomlItem::Bool(true));
        }
        if str_eq(value, "false") {
            return Ok(TomlItem::Bool(false));
        }
        return Err(ConfigError::InvalidBool);
    }
    if str_eq(key, "consent_timeout_secs") || str_eq(key, "discovery_timeout_secs") || str_eq(key, "transfer_timeout_secs") {
        return match parse_timeout(value) {
            Ok(t) => if t > 9223372036854775807u64 {
                Err(ConfigError::TimeoutOutOfRange)
            } else {
                Ok(TomlItem::Int(t as i64))
            },
            Err(e) => Err(e),
        };
    }
    Err(ConfigError::UnknownKey(owned(key)))
}

/// The text of a settings file, or the empty document when there is none.
pub open spec fn document_body(body: Option<&str>) -> Seq<char> {
    match body {
        Some(b) => b@,
        None => ""@,
    }
}

/// The settings a file holds: refused when it is not TOML, else read with
/// the default destination taken from `$XDG_DOWNLOAD_DIR` and `$HOME`.
pub open spec fn load_spec(body: Seq<char>, home: Option<Seq<char>>, xdg_download_dir: Option<Seq<char>>) -> Result<ConfigView, ConfigErrorView> {
    match toml_document(body) {
        None => Err(ConfigErrorView::InvalidDocument(toml_parse_error(body))),
        Some(entries) => from_document_spec(entries, home, default_receive_directory_spec(xdg_download_dir, home)),
    }
}

/// The entries after a patch: `consent_timeout_secs` is pinned to its
/// effective value when the file did not set it, then `key` is set.
pub open spec fn patched_entries(entries: Seq<TomlEntryView>, current: ConfigView, key: Seq<char>, item: TomlItemView) -> Seq<TomlEntryView> {
    let base = if has_consent_key(entries) {
        entries
    } else {
        with_entry(entries, "consent_timeout_secs"@, TomlItemView::Int(current.consent_timeout_secs as i64))
    };
    with_entry(base, key, item)
}

/// The settings after setting `key` to `value` in a file: the current file
/// must be valid, the value must suit the key, and the patched file must be
/// valid too.
pub open spec fn patch_spec(
    body: Seq<char>,
    key: Seq<char>,
    value: Seq<char>,
    home: Option<Seq<char>>,
    xdg_download_dir: Option<Seq<char>>,
) -> Result<ConfigView, ConfigErrorView> {
    let rd = default_receive_directory_spec(xdg_download_dir, home);
    match toml_document(body) {
        None => Err(ConfigErrorView::InvalidDocument(toml_parse_error(body))),
        Some(entries) => match from_document_spec(entries, home, rd) {
            Err(e) => Err(e),
            Ok(current) => if !has_consent_key(entries) && current.consent_timeout_secs > i64::MAX {
                Err(ConfigErrorView::TimeoutOutOfRange)
            } else {
                match patch_value_spec(key, value, home) {
                    Err(e) => Err(e),
                    Ok(item) => from_document_spec(patched_entries(entries, current, key, item), home, rd),
                }
            },
        },
    }
}

/// The entries of the file a successful patch writes: the current entries
/// with `consent_timeout_secs` pinned when it was absent and `key` set to the
/// value read for it.
pub open spec fn patch_entries_spec(
    body: Seq<char>,
    key: Seq<char>,
    value: Seq<char>,
    home: Option<Seq<char>>,
    xdg_download_dir: Option<Seq<char>>,
) -> Seq<TomlEntryView> {
    let rd = default_receive_directory_spec(xdg_download_dir, home);
    match toml_document(body) {
        None => Seq::empty(),
        Some(entries) => match from_document_spec(entries, home, rd) {
            Err(_) => entries,
            Ok(current) => match patch_value_spec(key, value, home) {
                Err(_) => entries,
                Ok(item) => patched_entries(entries, current, key, item),
            },
        },
    }
}

/// Entries the settings accept hold only strings, booleans and integers.
proof fn lemma_accepted_entries_are_plain(
    defaults: ConfigView,
    entries: Seq<TomlEntryView>,
    has_consent: bool,
    home: Option<Seq<char>>,
)
    requires
        apply_entries(defaults, entries, has_consent, home) is Ok,
    ensures
        plain_values(entries),
    decreases entries.len(),
{
    if entries.len() > 0 {
        lemma_accepted_entries_are_plain(defaults, entries.drop_last(), has_consent, home);
        assert forall|i: int| 0 <= i < entries.len() implies !((#[trigger] entries[i]).item is Other) by {
            if i < entries.len() - 1 {
                assert(entries[i] == entries.drop_last()[i]);
            }
        }
    }
}

/// The settings a successful patch owes: the settings the file holds with
/// the one entry for `key` applied, every other setting kept.
pub open spec fn patched_setting_spec(
    body: Seq<char>,
    key: Seq<char>,
    value: Seq<char>,
    home: Option<Seq<char>>,
    xdg_download_dir: Option<Seq<char>>,
) -> Result<ConfigView, ConfigErrorView> {
    match load_spec(body, home, xdg_download_dir) {
        Err(e) => Err(e),
        Ok(current) => match patch_value_spec(key, value, home) {
            Err(e) => Err(e),
            Ok(item) => apply_entry(current, TomlEntryView { key, item }, true, home),
        },
    }
}

/// `true` or `false`.
pub open spec fn bool_text(b: bool) -> Seq<char> {
    if b { "true"@ } else { "false"@ }
}

/// An optional `key = "value"` line.
pub open spec fn optional_line(label: Seq<char>, value: Option<Seq<char>>) -> Seq<char> {
    match value {
        Some(v) => label + toml_string_literal(v) + "\n"@,
        None => Seq::empty(),
    }
}

/// The effective settings as strict TOML, one key per line; the consent
/// deadline goes under its documented name, `visibility_timeout_secs`.
pub open spec fn toml_text(c: ConfigView) -> Seq<char> {
    "visibility_timeout_secs = "@ + decimal(c.consent_timeout_secs as nat)
        + "\ndiscoverable = "@ + bool_text(c.discoverable)
        + "\nread_clipboard_on_select = "@ + bool_text(c.read_clipboard_on_select)
        + "\ndiscovery_timeout_secs = "@ + decimal(c.discovery_timeout_secs as nat)
        + "\nreceive_directory = "@ + toml_string_literal(c.receive_directory)
        + "\ntransfer_timeout_secs = "@ + decimal(c.transfer_timeout_secs as nat)
        + "\n"@
        + optional_line("device_name = "@, c.device_name)
        + optional_line("pinned_peer_id = "@, c.pinned_peer_id)
}

/// Appends `true` or `false`.
fn push_bool(out: &mut Vec<char>, b: bool)
    ensures
        final(out)@ == old(out)@ + bool_text(b),
{
    if b {
        push_str(out, "true");
    } else {
        push_str(out, "false");
    }
}

impl Config {
    /// Loads settings from the text of the user's config file, or defaults
    /// when there is none. `home` is `$HOME` and `xdg_download_dir` is
    /// `$XDG_DOWNLOAD_DIR`.
    pub fn load(body: Option<&str>, home: Option<&str>, xdg_download_dir: Option<&str>) -> (r: Result<Config, ConfigError>)
        ensures
            config_result_view(r) == load_spec(document_body(body), opt_str_view(home), opt_str_view(xdg_download_dir)),
            body is None ==> config_result_view(r) == Ok::<ConfigView, ConfigErrorView>(
                default_config(default_receive_directory_spec(opt_str_view(xdg_download_dir), opt_str_view(home))),
            ),
    {
        proof {
            reveal_strlit("");
        }
        let text = match body {
            Some(b) => b,
            None => "",
        };
        let doc = match parse_document(text) {
            Ok(d) => d,
            Err(message) => return Err(ConfigError::InvalidDocument(message)),
        };
        let entries = document_entries_of(&doc);
        Config::from_document(&entries, home, default_receive_directory(xdg_download_dir, home))
    }

    /// Validates and applies one key to the text of the config file, and
    /// returns the new settings with the new text, formatting kept. Writing
    /// the text in place of the file is left to the caller.
    pub fn patch_document(
        body: Option<&str>,
        key: &str,
        value: &str,
        home: Option<&str>,
        xdg_download_dir: Option<&str>,
    ) -> (r: Result<(Config, String), ConfigError>)
        ensures
            match r {
                Ok(pair) => {
                    &&& patch_spec(document_body(body), key@, value@, opt_str_view(home), opt_str_view(xdg_download_dir))
                        == Ok::<ConfigView, ConfigErrorView>(pair.0@)
                    &&& toml_document(pair.1@) == Some(patch_entries_spec(
                        document_body(body), key@, value@, opt_str_view(home), opt_str_view(xdg_download_dir)))
                    &&& load_spec(pair.1@, opt_str_view(home), opt_str_view(xdg_download_dir))
                        == Ok::<ConfigView, ConfigErrorView>(pair.0@)
                    &&& patched_setting_spec(document_body(body), key@, value@, opt_str_view(home), opt_str_view(xdg_download_dir))
                        == Ok::<ConfigView, ConfigErrorView>(pair.0@)
                },
                Err(e) => patch_spec(document_body(body), key@, value@, opt_str_view(home), opt_str_view(xdg_download_dir))
                    == Err::<ConfigView, ConfigErrorView>(e@),
            },
    {
        let text = match body {
            Some(b) => b,
            None => "",
        };
        let mut doc = match parse_document(text) {
            Ok(d) => d,
            Err(message) => return Err(ConfigError::InvalidDocument(message)),
        };
        let ghost entries = document_entries(doc);
        let rows = document_entries_of(&doc);
        let current = match Config::from_document(&rows, home, default_receive_directory(xdg_download_dir, home)) {
            Ok(c) => c,
            Err(e) => return Err(e),
        };
        if !has_key(&rows, "consent_timeout_secs") {
            if current.consent_timeout_secs > 9223372036854775807u64 {
                return Err(ConfigError::TimeoutOutOfRange);
            }
            let consent = TomlItem::Int(current.consent_timeout_secs as i64);
            set_document_value(&mut doc, "consent_timeout_secs", &consent);
        }
        let replacement = match patch_value(key, value, home) {
            Ok(item) => item,
            Err(e) => return Err(e),
        };
        match previous_decor(&doc, key) {
            Some(decor) => set_document_value_decorated(&mut doc, key, &replacement, decor),
            None => set_document_value(&mut doc, key, &replacement),
        }
        let patched_rows = document_entries_of(&doc);
        let candidate = match Config::from_document(&patched_rows, home, default_receive_directory(xdg_download_dir, home)) {
            Ok(c) => c,
            Err(e) => return Err(e),
        };
        let ghost rd = default_receive_directory_spec(opt_str_view(xdg_download_dir), opt_str_view(home));
        let ghost patched = document_entries(doc);
        proof {
            lemma_accepted_entries_are_plain(default_config(rd), patched, has_consent_key(patched), opt_str_view(home));
            lemma_patch_keeps_other_settings(entries, key@, replacement@, opt_str_view(home), rd);
        }
        let text = render_document(&doc);
        Ok((candidate, text))
    }

    /// Renders the effective settings as strict TOML.
    pub fn to_toml(&self) -> (r: String)
        ensures
            r@ == toml_text(self@),
    {
        let mut out: Vec<char> = Vec::new();
        push_str(&mut out, "visibility_timeout_secs = ");
        push_decimal(&mut out, self.consent_timeout_secs);
        push_str(&mut out, "\ndiscoverable = ");
        push_bool(&mut out, self.discoverable);
        push_str(&mut out, "\nread_clipboard_on_select = ");
        push_bool(&mut out, self.read_clipboard_on_select);
        push_str(&mut out, "\ndiscovery_timeout_secs = ");
        push_decimal(&mut out, self.discovery_timeout_secs);
        push_str(&mut out, "\nreceive_directory = ");
        let dir = toml_quote(self.receive_directory.as_str());
        push_str(&mut out, dir.as_str());
        push_str(&mut out, "\ntransfer_timeout_secs = ");
        push_decimal(&mut out, self.transfer_timeout_secs);
        push_str(&mut out, "\n");
        let ghost head = out@;
        match &self.device_name {
            Some(name) => {
                push_str(&mut out, "device_name = ");
                let quoted = toml_quote(name.as_str());
                push_str(&mut out, quoted.as_str());
                push_str(&mut out, "\n");
            },
            None => {},
        }
        let ghost middle = out@;
        assert(middle =~= head + optional_line("device_name = "@, self@.device_name));
        match &self.pinned_peer_id {
            Some(id) => {
                push_str(&mut out, "pinned_peer_id = ");
                let quoted = toml_quote(id.as_str());
                push_str(&mut out, quoted.as_str());
                push_str(&mut out, "\n");
            },
            None => {},
        }
        assert(out@ =~= middle + optional_line("pinned_peer_id = "@, self@.pinned_peer_id));
        assert(out@ =~= toml_text(self@));
        string_from_chars(out.as_slice())
    }
}

/// The documented keys are different words.
proof fn lemma_documented_keys_differ()
    ensures
        "device_name"@.len() == 11,
        "pinned_peer_id"@.len() == 14,
        "receive_directory"@.len() == 17,
        "discoverable"@.len() == 12,
        "read_clipboard_on_select"@.len() == 24,
        "consent_timeout_secs"@.len() == 20,
        "discovery_timeout_secs"@.len() == 22,
        "visibility_timeout_secs"@.len() == 23,
        "transfer_timeout_secs"@.len() == 21,
{
    reveal_strlit("device_name");
    reveal_strlit("pinned_peer_id");
    reveal_strlit("receive_directory");
    reveal_strlit("discoverable");
    reveal_strlit("read_clipboard_on_select");
    reveal_strlit("consent_timeout_secs");
    reveal_strlit("discovery_timeout_secs");
    reveal_strlit("visibility_timeout_secs");
    reveal_strlit("transfer_timeout_secs");
}

/// Whether two settings agree on the setting `key` controls; the consent
/// deadline is the setting of both `consent_timeout_secs` and
/// `visibility_timeout_secs`.
spec fn same_setting(a: ConfigView, b: ConfigView, key: Seq<char>) -> bool {
    if key == "consent_timeout_secs"@ || key == "visibility_timeout_secs"@ {
        a.consent_timeout_secs == b.consent_timeout_secs
    } else if key == "discovery_timeout_secs"@ {
        a.discovery_timeout_secs == b.discovery_timeout_secs
    } else if key == "transfer_timeout_secs"@ {
        a.transfer_timeout_secs == b.transfer_timeout_secs
    } else if key == "discoverable"@ {
        a.discoverable == b.discoverable
    } else if key == "read_clipboard_on_select"@ {
        a.read_clipboard_on_select == b.read_clipboard_on_select
    } else if key == "device_name"@ {
        a.device_name == b.device_name
    } else if key == "pinned_peer_id"@ {
        a.pinned_peer_id == b.pinned_peer_id
    } else if key == "receive_directory"@ {
        a.receive_directory == b.receive_directory
    } else {
        true
    }
}

/// Whether an entry for `other` leaves the setting of `key` alone.
spec fn leaves_setting(other: Seq<char>, key: Seq<char>, has_consent: bool) -> bool {
    &&& other != key
    &&& !(other == "visibility_timeout_secs"@ && key == "consent_timeout_secs"@ && !has_consent)
    &&& !(other == "consent_timeout_secs"@ && key == "visibility_timeout_secs"@)
}

/// An accepted entry for another key keeps the setting of `key`.
proof fn lemma_entry_keeps_setting(c: ConfigView, e: TomlEntryView, hc: bool, home: Option<Seq<char>>, key: Seq<char>)
    requires
        apply_entry(c, e, hc, home) is Ok,
        leaves_setting(e.key, key, hc),
    ensures
        same_setting(c, apply_entry(c, e, hc, home)->Ok_0, key),
{
    lemma_documented_keys_differ();
}

/// Entries after position `k` that leave the setting of `key` alone keep
/// the value it had after the first `k` entries.
proof fn lemma_later_entries_keep_setting(
    defaults: ConfigView,
    entries: Seq<TomlEntryView>,
    hc: bool,
    home: Option<Seq<char>>,
    k: int,
    key: Seq<char>,
)
    requires
        0 <= k <= entries.len(),
        apply_entries(defaults, entries, hc, home) is Ok,
        forall|j: int| k <= j < entries.len() ==> leaves_setting((#[trigger] entries[j]).key, key, hc),
    ensures
        apply_entries(defaults, entries.take(k), hc, home) is Ok,
        same_setting(
            apply_entries(defaults, entries.take(k), hc, home)->Ok_0,
            apply_entries(defaults, entries, hc, home)->Ok_0,
            key,
        ),
    decreases entries.len(),
{
    if k == entries.len() {
        assert(entries.take(k) =~= entries);
    } else {
        let p = entries.drop_last();
        assert(p.take(k) =~= entries.take(k));
        assert forall|j: int| k <= j < p.len() implies leaves_setting((#[trigger] p[j]).key, key, hc) by {
            assert(p[j] == entries[j]);
        }
        lemma_later_entries_keep_setting(defaults, p, hc, home, k, key);
        assert(leaves_setting(entries[entries.len() - 1].key, key, hc));
        lemma_entry_keeps_setting(apply_entries(defaults, p, hc, home)->Ok_0, entries.last(), hc, home, key);
        lemma_documented_keys_differ();
    }
}

/// Each documented key sets its own setting: in a document that loads, an
/// integer `discovery_timeout_secs`, `transfer_timeout_secs` or
/// `consent_timeout_secs` of `v` gives that deadline `v` seconds, and so
/// does `visibility_timeout_secs` for the consent deadline when
/// `consent_timeout_secs` is absent; `discoverable` and
/// `read_clipboard_on_select` give their boolean; `device_name`,
/// `pinned_peer_id` and `receive_directory` give the name, peer and
/// directory their string reads as.
pub proof fn lemma_keys_set_their_settings(
    entries: Seq<TomlEntryView>,
    home: Option<Seq<char>>,
    receive_directory: Seq<char>,
    i: int,
)
    requires
        distinct_keys(entries),
        0 <= i < entries.len(),
        from_document_spec(entries, home, receive_directory) is Ok,
    ensures
        ({
            let c = from_document_spec(entries, home, receive_directory)->Ok_0;
            let e = entries[i];
            &&& e.key == "discovery_timeout_secs"@ ==> (e.item matches TomlItemView::Int(v) && v >= 0 && c.discovery_timeout_secs == v)
            &&& e.key == "transfer_timeout_secs"@ ==> (e.item matches TomlItemView::Int(v) && v >= 0 && c.transfer_timeout_secs == v)
            &&& e.key == "consent_timeout_secs"@ ==> (e.item matches TomlItemView::Int(v) && v >= 0 && c.consent_timeout_secs == v)
            &&& e.key == "visibility_timeout_secs"@ ==> (e.item matches TomlItemView::Int(v) && v >= 0
                && (!has_consent_key(entries) ==> c.consent_timeout_secs == v))
            &&& e.key == "discoverable"@ ==> (e.item matches TomlItemView::Bool(b) && c.discoverable == b)
            &&& e.key == "read_clipboard_on_select"@ ==> (e.item matches TomlItemView::Bool(b) && c.read_clipboard_on_select == b)
            &&& e.key == "device_name"@ ==> (e.item matches TomlItemView::Str(s)
                && device_name_spec(s) == Ok::<Option<Seq<char>>, ConfigErrorView>(c.device_name))
            &&& e.key == "pinned_peer_id"@ ==> (e.item matches TomlItemView::Str(s) && c.pinned_peer_id == non_empty_spec(s))
            &&& e.key == "receive_directory"@ ==> (e.item matches TomlItemView::Str(s) && s.len() > 0
                && c.receive_directory == expand_user_spec(s, home))
        }),
{
    lemma_documented_keys_differ();
    let defaults = default_config(receive_directory);
    let hc = has_consent_key(entries);
    let key = entries[i].key;
    let before = entries.take(i);
    let upto = entries.take(i + 1);
    assert(upto.drop_last() =~= before);
    assert(upto.last() == entries[i]);
    if key == "consent_timeout_secs"@ {
        assert(hc);
    }
    if !(key == "visibility_timeout_secs"@ && hc) {
        assert forall|j: int| i + 1 <= j < entries.len() implies leaves_setting((#[trigger] entries[j]).key, key, hc) by {
            assert(entries[i].key != entries[j].key);
            if entries[j].key == "consent_timeout_secs"@ {
                assert(hc);
            }
        }
        lemma_later_entries_keep_setting(defaults, entries, hc, home, i + 1, key);
    } else {
        lemma_later_entries_keep_setting(defaults, entries, hc, home, entries.len() as int, key);
        assert(entries.take(entries.len() as int) =~= entries);
        if apply_entries(defaults, upto, hc, home) is Err {
            lemma_apply_entries_stops(defaults, entries, i + 1, hc, home);
        }
    }
}

/// A setting whose key the document leaves out keeps its documented
/// default: 15 seconds to discover, 120 seconds per transfer, 300 seconds
/// for consent (read from either consent key), not discoverable, no
/// clipboard reads, no device name, no pinned peer, and the default
/// receive directory.
pub proof fn lemma_absent_keys_keep_defaults(
    entries: Seq<TomlEntryView>,
    home: Option<Seq<char>>,
    receive_directory: Seq<char>,
)
    requires
        from_document_spec(entries, home, receive_directory) is Ok,
    ensures
        ({
            let c = from_document_spec(entries, home, receive_directory)->Ok_0;
            &&& !has_entry(entries, "discovery_timeout_secs"@) ==> c.discovery_timeout_secs == 15
            &&& !has_entry(entries, "transfer_timeout_secs"@) ==> c.transfer_timeout_secs == 120
            &&& !has_entry(entries, "consent_timeout_secs"@) && !has_entry(entries, "visibility_timeout_secs"@)
                ==> c.consent_timeout_secs == 300
            &&& !has_entry(entries, "discoverable"@) ==> !c.discoverable
            &&& !has_entry(entries, "read_clipboard_on_select"@) ==> !c.read_clipboard_on_select
            &&& !has_entry(entries, "device_name"@) ==> c.device_name is None
            &&& !has_entry(entries, "pinned_peer_id"@) ==> c.pinned_peer_id is None
            &&& !has_entry(entries, "receive_directory"@) ==> c.receive_directory == receive_directory
        }),
{
    lemma_documented_keys_differ();
    let defaults = default_config(receive_directory);
    let hc = has_consent_key(entries);
    assert(entries.take(0) =~= Seq::<TomlEntryView>::empty());
    let keys = seq![
        "discovery_timeout_secs"@, "transfer_timeout_secs"@, "consent_timeout_secs"@, "discoverable"@,
        "read_clipboard_on_select"@, "device_name"@, "pinned_peer_id"@, "receive_directory"@,
    ];
    assert forall|m: int| 0 <= m < keys.len() && !has_entry(entries, keys[m])
        && (keys[m] == "consent_timeout_secs"@ ==> !has_entry(entries, "visibility_timeout_secs"@))
        implies same_setting(defaults, from_document_spec(entries, home, receive_directory)->Ok_0, #[trigger] keys[m]) by {
        let key = keys[m];
        assert forall|j: int| 0 <= j < entries.len() implies leaves_setting((#[trigger] entries[j]).key, key, hc) by {
            if entries[j].key == key {
                assert(has_entry(entries, key));
            }
            if entries[j].key == "visibility_timeout_secs"@ && key == "consent_timeout_secs"@ {
                assert(has_entry(entries, "visibility_timeout_secs"@));
            }
        }
        lemma_later_entries_keep_setting(defaults, entries, hc, home, 0, key);
    }
    assert(keys[0] == "discovery_timeout_secs"@ && keys[1] == "transfer_timeout_secs"@);
    assert(keys[2] == "consent_timeout_secs"@ && keys[3] == "discoverable"@);
    assert(keys[4] == "read_clipboard_on_select"@ && keys[5] == "device_name"@);
    assert(keys[6] == "pinned_peer_id"@ && keys[7] == "receive_directory"@);
}

} // verus!
