//! Local `file:` URIs and `text/uri-list` arguments.
//!
//! A clipboard or command-line argument that names one local `file:` URI is
//! treated as an absolute filesystem path. Percent escapes are decoded as
//! `%HH` bytes (a `+` stays a `+`), the decoded bytes must be UTF-8 without
//! NUL, and only an empty host or `localhost` is local.

use vstd::prelude::*;
use vstd::utf8::{decode_utf8, encode_utf8, valid_utf8};
use crate::text::{chars_of, copy_range, is_whitespace_spec, seq_starts_with, string_from_chars, string_from_utf8, trim, trim_range};

verus! {

/// Why a file URI was refused. Every variant is an invalid-input error.
#[derive(Clone, Copy, Debug, PartialEq, Eq, Structural)]
pub enum UriError {
    /// The URI does not have the shape of a local absolute `file:` URI.
    Malformed,
    /// The URI names a host other than the local one.
    RemoteHost,
    /// A percent escape decodes to a NUL byte.
    Nul,
    /// A `text/uri-list` holds more than one entry.
    MultipleEntries,
    /// The named path does not exist.
    MissingPath,
}

impl UriError {
    /// The user-facing description.
    pub fn message(&self) -> (r: &'static str)
        ensures
            r@ == uri_error_message(*self),
    {
        match self {
            UriError::Malformed => "file URI is malformed",
            UriError::RemoteHost => "file URI host is not local",
            UriError::Nul => "file URI contains a NUL",
            UriError::MultipleEntries => "file URI list has multiple entries",
            UriError::MissingPath => "file URI path does not exist",
        }
    }
}

/// The user-facing description of an error.
pub open spec fn uri_error_message(e: UriError) -> Seq<char> {
    match e {
        UriError::Malformed => "file URI is malformed"@,
        UriError::RemoteHost => "file URI host is not local"@,
        UriError::Nul => "file URI contains a NUL"@,
        UriError::MultipleEntries => "file URI list has multiple entries"@,
        UriError::MissingPath => "file URI path does not exist"@,
    }
}

/// Byte `%`.
pub const PERCENT: u8 = 37;
/// Byte `/`.
pub const SLASH: u8 = 47;
/// Byte `?`.
pub const QUESTION: u8 = 63;
/// Byte `#`.
pub const HASH: u8 = 35;

/// The value of one hexadecimal digit byte.
pub open spec fn hex_value(b: u8) -> Option<u8> {
    if 48 <= b <= 57 {
        Some((b - 48) as u8)
    } else if 97 <= b <= 102 {
        Some((b - 87) as u8)
    } else if 65 <= b <= 70 {
        Some((b - 55) as u8)
    } else {
        None
    }
}

/// Parses one hexadecimal digit from a percent escape.
pub fn hex_digit(byte: u8) -> (r: Result<u8, UriError>)
    ensures
        match hex_value(byte) {
            Some(v) => r == Ok::<u8, UriError>(v),
            None => r == Err::<u8, UriError>(UriError::Malformed),
        },
{
    if 48 <= byte && byte <= 57 {
        Ok(byte - 48)
    } else if 97 <= byte && byte <= 102 {
        Ok(byte - 87)
    } else if 65 <= byte && byte <= 70 {
        Ok(byte - 55)
    } else {
        Err(UriError::Malformed)
    }
}

/// Decodes `%HH` escapes; `None` for an escape without two hex digits.
pub open spec fn percent_decoded(b: Seq<u8>) -> Option<Seq<u8>>
    decreases b.len(),
{
    if b.len() == 0 {
        Some(Seq::empty())
    } else if b[0] == PERCENT {
        if b.len() < 3 {
            None
        } else {
            match (hex_value(b[1]), hex_value(b[2])) {
                (Some(high), Some(low)) => match percent_decoded(b.skip(3)) {
                    Some(rest) => Some(seq![(high * 16 + low) as u8] + rest),
                    None => None,
                },
                _ => None,
            }
        }
    } else {
        match percent_decoded(b.skip(1)) {
            Some(rest) => Some(seq![b[0]] + rest),
            None => None,
        }
    }
}

/// `prefix` followed by a decoding, or no decoding.
pub open spec fn prepend(prefix: Seq<u8>, rest: Option<Seq<u8>>) -> Option<Seq<u8>> {
    match rest {
        Some(r) => Some(prefix + r),
        None => None,
    }
}

/// Decodes the escapes of `b[from..to]`.
fn percent_decode_range(b: &[u8], from: usize, to: usize) -> (r: Result<Vec<u8>, UriError>)
    requires
        from <= to <= b@.len(),
    ensures
        match percent_decoded(b@.subrange(from as int, to as int)) {
            Some(d) => r is Ok && r->Ok_0@ == d,
            None => r == Err::<Vec<u8>, UriError>(UriError::Malformed),
        },
{
    let mut out: Vec<u8> = Vec::new();
    let mut i = from;
    while i < to
        invariant
            from <= i <= to <= b@.len(),
            percent_decoded(b@.subrange(from as int, to as int))
                == prepend(out@, percent_decoded(b@.subrange(i as int, to as int))),
        decreases to - i,
    {
        let ghost rest = b@.subrange(i as int, to as int);
        assert(rest[0] == b@[i as int]);
        if b[i] == PERCENT {
            if to - i < 3 {
                return Err(UriError::Malformed);
            }
            assert(rest[1] == b@[i + 1]);
            assert(rest[2] == b@[i + 2]);
            let high = match hex_digit(b[i + 1]) {
                Ok(v) => v,
                Err(e) => return Err(e),
            };
            let low = match hex_digit(b[i + 2]) {
                Ok(v) => v,
                Err(e) => return Err(e),
            };
            let byte: u8 = high * 16 + low;
            assert(rest.skip(3) =~= b@.subrange(i + 3, to as int));
            assert(out@.push(byte) =~= out@ + seq![byte]);
            proof {
                match percent_decoded(b@.subrange(i + 3, to as int)) {
                    Some(tail) => assert(out@ + (seq![byte] + tail) =~= out@.push(byte) + tail),
                    None => {},
                }
            }
            out.push(byte);
            i = i + 3;
        } else {
            let byte = b[i];
            assert(rest.skip(1) =~= b@.subrange(i + 1, to as int));
            proof {
                match percent_decoded(b@.subrange(i + 1, to as int)) {
                    Some(tail) => assert(out@ + (seq![byte] + tail) =~= out@.push(byte) + tail),
                    None => {},
                }
            }
            out.push(byte);
            i = i + 1;
        }
    }
    assert(b@.subrange(i as int, to as int) =~= Seq::<u8>::empty());
    assert(out@ + Seq::<u8>::empty() =~= out@);
    Ok(out)
}

/// Decodes `%HH` escapes without treating `+` as a space.
pub fn percent_decode(input: &str) -> (r: Result<Vec<u8>, UriError>)
    ensures
        match percent_decoded(encode_utf8(input@)) {
            Some(d) => r is Ok && r->Ok_0@ == d,
            None => r == Err::<Vec<u8>, UriError>(UriError::Malformed),
        },
{
    let b = input.as_bytes();
    assert(b@.subrange(0, b@.len() as int) =~= b@);
    percent_decode_range(b, 0, b.len())
}

/// The decoded bytes of an escaped text that must be UTF-8 without NUL.
pub open spec fn decoded_text(b: Seq<u8>) -> Result<Seq<u8>, UriError> {
    match percent_decoded(b) {
        None => Err(UriError::Malformed),
        Some(d) => if d.contains(0u8) {
            Err(UriError::Nul)
        } else if !valid_utf8(d) {
            Err(UriError::Malformed)
        } else {
            Ok(d)
        },
    }
}

/// Whether `b` holds a zero byte.
fn has_nul(b: &Vec<u8>) -> (r: bool)
    ensures
        r == b@.contains(0u8),
{
    let mut i: usize = 0;
    while i < b.len()
        invariant
            i <= b@.len(),
            forall|j: int| 0 <= j < i ==> b@[j] != 0u8,
        decreases b@.len() - i,
    {
        if b[i] == 0 {
            assert(b@[i as int] == 0u8);
            return true;
        }
        i = i + 1;
    }
    false
}

/// Decodes `b[from..to]` as escaped UTF-8 text, returning its bytes and string.
fn percent_decode_utf8_range(b: &[u8], from: usize, to: usize) -> (r: Result<(Vec<u8>, String), UriError>)
    requires
        from <= to <= b@.len(),
    ensures
        match decoded_text(b@.subrange(from as int, to as int)) {
            Ok(d) => r is Ok && r->Ok_0.0@ == d && r->Ok_0.1@ == decode_utf8(d),
            Err(e) => r == Err::<(Vec<u8>, String), UriError>(e),
        },
{
    let decoded = match percent_decode_range(b, from, to) {
        Ok(d) => d,
        Err(e) => return Err(e),
    };
    if has_nul(&decoded) {
        return Err(UriError::Nul);
    }
    let bytes = decoded.clone();
    match string_from_utf8(decoded) {
        Some(text) => Ok((bytes, text)),
        None => Err(UriError::Malformed),
    }
}

/// Percent-decodes URI text and rejects NULs or invalid UTF-8.
pub fn percent_decode_utf8(input: &str) -> (r: Result<String, UriError>)
    ensures
        match decoded_text(encode_utf8(input@)) {
            Ok(d) => r is Ok && r->Ok_0@ == decode_utf8(d),
            Err(e) => r == Err::<String, UriError>(e),
        },
{
    let b = input.as_bytes();
    assert(b@.subrange(0, b@.len() as int) =~= b@);
    match percent_decode_utf8_range(b, 0, b.len()) {
        Ok((_bytes, text)) => Ok(text),
        Err(e) => Err(e),
    }
}

/// The bytes of `file:`.
pub open spec fn file_scheme() -> Seq<u8> {
    seq![102u8, 105u8, 108u8, 101u8, 58u8]
}

/// The bytes of `localhost`.
pub open spec fn localhost() -> Seq<u8> {
    seq![108u8, 111u8, 99u8, 97u8, 108u8, 104u8, 111u8, 115u8, 116u8]
}

/// ASCII lowercase of one byte.
pub open spec fn ascii_lower(b: u8) -> u8 {
    if 65 <= b <= 90 { (b + 32) as u8 } else { b }
}

/// Whether two byte strings are equal ignoring ASCII case.
pub open spec fn eq_ignore_ascii_case(a: Seq<u8>, b: Seq<u8>) -> bool {
    a.len() == b.len() && forall|i: int| 0 <= i < a.len() ==> ascii_lower(a[i]) == ascii_lower(b[i])
}

/// Whether a decoded host names this machine.
pub open spec fn is_local_host(host: Seq<u8>) -> bool {
    host.len() == 0 || eq_ignore_ascii_case(host, localhost())
}

/// The index of the first `byte` in `s`.
pub open spec fn first_index_of(s: Seq<u8>, byte: u8) -> Option<int>
    decreases s.len(),
{
    if s.len() == 0 {
        None
    } else if s[0] == byte {
        Some(0)
    } else {
        match first_index_of(s.drop_first(), byte) {
            Some(k) => Some(k + 1),
            None => None,
        }
    }
}

/// The escaped path of a local `file:` URI, before decoding.
pub open spec fn raw_local_path(u: Seq<u8>) -> Result<Seq<u8>, UriError> {
    if !(u.len() >= 5 && u.take(5) == file_scheme()) {
        Err(UriError::Malformed)
    } else {
        let rest = u.skip(5);
        if rest.len() >= 2 && rest[0] == SLASH && rest[1] == SLASH {
            let authority = rest.skip(2);
            if authority.len() > 0 && authority[0] == SLASH {
                Ok(authority)
            } else {
                match first_index_of(authority, SLASH) {
                    None => Err(UriError::Malformed),
                    Some(k) => match decoded_text(authority.take(k)) {
                        Err(e) => Err(e),
                        Ok(host) => if is_local_host(host) {
                            Ok(authority.skip(k))
                        } else {
                            Err(UriError::RemoteHost)
                        },
                    },
                }
            }
        } else if rest.len() > 0 && rest[0] == SLASH {
            Ok(rest)
        } else {
            Err(UriError::Malformed)
        }
    }
}

/// The decoded absolute path bytes named by a local `file:` URI.
pub open spec fn local_file_path(u: Seq<u8>) -> Result<Seq<u8>, UriError> {
    match raw_local_path(u) {
        Err(e) => Err(e),
        Ok(raw) => if raw.contains(QUESTION) || raw.contains(HASH) {
            Err(UriError::Malformed)
        } else {
            match decoded_text(raw) {
                Err(e) => Err(e),
                Ok(path) => if path.len() > 0 && path[0] == SLASH {
                    Ok(path)
                } else {
                    Err(UriError::Malformed)
                },
            }
        },
    }
}

/// A path taken from a `file:` URI is always absolute, valid UTF-8, and free
/// of NUL bytes, whatever escapes the URI used.
pub proof fn lemma_accepted_paths_are_clean(u: Seq<u8>)
    ensures
        local_file_path(u) matches Ok(p) ==> (p.len() > 0 && p[0] == SLASH && !p.contains(0u8) && valid_utf8(p)),
{
}

/// The first index at or after `from` in `b` that holds `byte`.
fn find_byte(b: &[u8], from: usize, byte: u8) -> (r: Option<usize>)
    requires
        from <= b@.len(),
    ensures
        match first_index_of(b@.skip(from as int), byte) {
            Some(k) => r is Some && r->0 == from + k,
            None => r is None,
        },
        r matches Some(i) ==> from <= i < b@.len() && b@[i as int] == byte,
{
    let mut i = from;
    while i < b.len()
        invariant
            from <= i <= b@.len(),
            first_index_of(b@.skip(from as int), byte) == match first_index_of(b@.skip(i as int), byte) {
                Some(k) => Some(k + (i - from)),
                None => None,
            },
        decreases b@.len() - i,
    {
        assert(b@.skip(i as int)[0] == b@[i as int]);
        if b[i] == byte {
            return Some(i);
        }
        assert(b@.skip(i as int).drop_first() =~= b@.skip(i + 1));
        i = i + 1;
    }
    assert(b@.skip(i as int) =~= Seq::<u8>::empty());
    None
}

/// Whether `b[from..]` holds `byte`.
fn contains_from(b: &[u8], from: usize, byte: u8) -> (r: bool)
    requires
        from <= b@.len(),
    ensures
        r == b@.skip(from as int).contains(byte),
{
    let mut i = from;
    while i < b.len()
        invariant
            from <= i <= b@.len(),
            forall|j: int| from <= j < i ==> b@[j] != byte,
        decreases b@.len() - i,
    {
        if b[i] == byte {
            assert(b@.skip(from as int)[i - from] == byte);
            return true;
        }
        i = i + 1;
    }
    assert forall|j: int| 0 <= j < b@.skip(from as int).len() implies b@.skip(from as int)[j] != byte by {
        assert(b@.skip(from as int)[j] == b@[from + j]);
    }
    false
}

/// Whether `host` is empty or `localhost` in any ASCII case.
fn local_host(host: &Vec<u8>) -> (r: bool)
    ensures
        r == is_local_host(host@),
{
    if host.len() == 0 {
        return true;
    }
    let expected: [u8; 9] = [108, 111, 99, 97, 108, 104, 111, 115, 116];
    assert(expected@ =~= localhost());
    if host.len() != 9 {
        return false;
    }
    let mut i: usize = 0;
    while i < 9
        invariant
            host@.len() == 9,
            expected@ == localhost(),
            i <= 9,
            forall|j: int| 0 <= j < i ==> ascii_lower(host@[j]) == ascii_lower(localhost()[j]),
        decreases 9 - i,
    {
        let a = host[i];
        let b = expected[i];
        let la: u8 = if 65 <= a && a <= 90 { a + 32 } else { a };
        let lb: u8 = if 65 <= b && b <= 90 { b + 32 } else { b };
        if la != lb {
            return false;
        }
        i = i + 1;
    }
    true
}

/// Percent-decodes one local `file:` URI to an absolute path and rejects
/// remote hosts.
pub fn decode_local_file_uri(uri: &str) -> (r: Result<String, UriError>)
    ensures
        match local_file_path(encode_utf8(uri@)) {
            Ok(p) => r is Ok && r->Ok_0@ == decode_utf8(p),
            Err(e) => r == Err::<String, UriError>(e),
        },
{
    let u = uri.as_bytes();
    let ghost us = u@;
    let n = u.len();
    if n < 5 || u[0] != 102 || u[1] != 105 || u[2] != 108 || u[3] != 101 || u[4] != 58 {
        assert(!(us.len() >= 5 && us.take(5) == file_scheme())) by {
            if us.len() >= 5 && us.take(5) == file_scheme() {
                assert(us.take(5)[0] == us[0]);
                assert(us.take(5)[1] == us[1]);
                assert(us.take(5)[2] == us[2]);
                assert(us.take(5)[3] == us[3]);
                assert(us.take(5)[4] == us[4]);
            }
        }
        return Err(UriError::Malformed);
    }
    assert(us.take(5) =~= file_scheme());
    let ghost rest = us.skip(5);
    let start: usize;
    if n >= 7 && u[5] == SLASH && u[6] == SLASH {
        assert(rest[0] == us[5] && rest[1] == us[6]);
        let ghost authority = rest.skip(2);
        assert(authority =~= us.skip(7));
        if n > 7 && u[7] == SLASH {
            assert(authority[0] == us[7]);
            start = 7;
        } else {
            assert(authority.len() > 0 ==> authority[0] == us[7]);
            let slash = match find_byte(u, 7, SLASH) {
                Some(k) => k,
                None => return Err(UriError::Malformed),
            };
            assert(authority.take(slash - 7) =~= us.subrange(7, slash as int));
            assert(!(authority.len() > 0 && authority[0] == SLASH));
            assert(first_index_of(authority, SLASH) == Some((slash - 7) as int));
            let host = match percent_decode_utf8_range(u, 7, slash) {
                Ok((bytes, _text)) => bytes,
                Err(e) => {
                    assert(raw_local_path(us) == Err::<Seq<u8>, UriError>(e));
                    return Err(e);
                },
            };
            if !local_host(&host) {
                assert(raw_local_path(us) == Err::<Seq<u8>, UriError>(UriError::RemoteHost));
                return Err(UriError::RemoteHost);
            }
            assert(authority.skip(slash - 7) =~= us.skip(slash as int));
            start = slash;
        }
    } else {
        assert(!(rest.len() >= 2 && rest[0] == SLASH && rest[1] == SLASH)) by {
            if rest.len() >= 2 {
                assert(rest[0] == us[5] && rest[1] == us[6]);
            }
        }
        if n > 5 && u[5] == SLASH {
            assert(rest[0] == us[5]);
            start = 5;
        } else {
            assert(rest.len() > 0 ==> rest[0] == us[5]);
            return Err(UriError::Malformed);
        }
    }
    assert(raw_local_path(us) == Ok::<Seq<u8>, UriError>(us.skip(start as int)));
    if contains_from(u, start, QUESTION) || contains_from(u, start, HASH) {
        return Err(UriError::Malformed);
    }
    assert(us.subrange(start as int, n as int) =~= us.skip(start as int));
    let (path_bytes, path) = match percent_decode_utf8_range(u, start, n) {
        Ok(decoded) => decoded,
        Err(e) => return Err(e),
    };
    if path_bytes.len() == 0 || path_bytes[0] != SLASH {
        return Err(UriError::Malformed);
    }
    Ok(path)
}


/// Whether `c` separates lines of a `text/uri-list`.
pub open spec fn is_line_break(c: char) -> bool {
    c == '\n' || c == '\r'
}

/// The pieces of `s` between line breaks, empty pieces included.
pub open spec fn split_lines(s: Seq<char>) -> Seq<Seq<char>>
    decreases s.len(),
{
    if s.len() == 0 {
        seq![Seq::empty()]
    } else {
        let pieces = split_lines(s.drop_last());
        if is_line_break(s.last()) {
            pieces.push(Seq::empty())
        } else {
            pieces.update(pieces.len() - 1, pieces.last().push(s.last()))
        }
    }
}

/// Whether a trimmed line is an entry: not blank and not a comment.
pub open spec fn is_entry(line: Seq<char>) -> bool {
    line.len() > 0 && line[0] != '#'
}

/// The trimmed entries among `pieces`, in order.
pub open spec fn entries(pieces: Seq<Seq<char>>) -> Seq<Seq<char>>
    decreases pieces.len(),
{
    if pieces.len() == 0 {
        Seq::empty()
    } else {
        let before = entries(pieces.drop_last());
        if is_entry(trim(pieces.last())) {
            before.push(trim(pieces.last()))
        } else {
            before
        }
    }
}

/// The entries of a `text/uri-list` argument: trimmed lines without blank
/// lines and `#` comments.
pub open spec fn uri_lines(s: Seq<char>) -> Seq<Seq<char>> {
    entries(split_lines(s))
}

/// There is always at least one piece.
pub proof fn lemma_split_lines_len(s: Seq<char>)
    ensures
        split_lines(s).len() >= 1,
    decreases s.len(),
{
    if s.len() > 0 {
        lemma_split_lines_len(s.drop_last());
    }
}

/// Pushes the trimmed piece `chars[from..to]` when it is an entry.
fn push_entry(out: &mut Vec<Vec<char>>, chars: &Vec<char>, from: usize, to: usize)
    requires
        from <= to <= chars@.len(),
    ensures
        final(out)@.len() == old(out)@.len() + if is_entry(trim(chars@.subrange(from as int, to as int))) { 1int } else { 0int },
        forall|i: int| 0 <= i < old(out)@.len() ==> final(out)@[i] == old(out)@[i],
        is_entry(trim(chars@.subrange(from as int, to as int)))
            ==> final(out)@.last()@ == trim(chars@.subrange(from as int, to as int)),
{
    let (a, b) = trim_range(chars, from, to);
    if a < b && chars[a] != '#' {
        let line = copy_range(chars, a, b);
        out.push(line);
    }
}

/// The entries of `chars`, as character vectors.
fn lines_of(chars: &Vec<char>) -> (r: Vec<Vec<char>>)
    ensures
        r@.len() == uri_lines(chars@).len(),
        forall|i: int| 0 <= i < r@.len() ==> (#[trigger] r@[i])@ == uri_lines(chars@)[i],
{
    let mut out: Vec<Vec<char>> = Vec::new();
    let mut start: usize = 0;
    let mut i: usize = 0;
    let n = chars.len();
    proof {
        assert(chars@.take(0) =~= Seq::<char>::empty());
    }
    while i < n
        invariant
            n == chars@.len(),
            start <= i <= n,
            split_lines(chars@.take(i as int)).len() >= 1,
            split_lines(chars@.take(i as int)).last() == chars@.subrange(start as int, i as int),
            out@.len() == entries(split_lines(chars@.take(i as int)).drop_last()).len(),
            forall|j: int| 0 <= j < out@.len()
                ==> (#[trigger] out@[j])@ == entries(split_lines(chars@.take(i as int)).drop_last())[j],
        decreases n - i,
    {
        let ghost before = split_lines(chars@.take(i as int));
        let ghost prefix = chars@.take(i + 1);
        assert(prefix.drop_last() =~= chars@.take(i as int));
        assert(prefix.last() == chars@[i as int]);
        proof {
            lemma_split_lines_len(chars@.take(i as int));
        }
        if chars[i] == '\n' || chars[i] == '\r' {
            let ghost old_out = out@;
            push_entry(&mut out, chars, start, i);
            proof {
                let after = split_lines(prefix);
                assert(after == before.push(Seq::<char>::empty()));
                assert(after.drop_last() =~= before);
                assert(before =~= before.drop_last().push(before.last()));
                assert forall|j: int| 0 <= j < out@.len()
                    implies (#[trigger] out@[j])@ == entries(after.drop_last())[j] by {
                    if j < old_out.len() {
                        assert(out@[j] == old_out[j]);
                    }
                }
            }
            start = i + 1;
            assert(split_lines(prefix).last() =~= chars@.subrange(start as int, i + 1));
        } else {
            proof {
                let after = split_lines(prefix);
                assert(after == before.update(before.len() - 1, before.last().push(chars@[i as int])));
                assert(after.drop_last() =~= before.drop_last());
                assert(after.last() =~= chars@.subrange(start as int, i + 1));
            }
        }
        i = i + 1;
    }
    proof {
        lemma_split_lines_len(chars@);
        assert(chars@.take(n as int) =~= chars@);
    }
    let ghost old_out = out@;
    let ghost pieces = split_lines(chars@);
    push_entry(&mut out, chars, start, n);
    proof {
        assert(pieces =~= pieces.drop_last().push(pieces.last()));
        assert forall|j: int| 0 <= j < out@.len()
            implies (#[trigger] out@[j])@ == uri_lines(chars@)[j] by {
            if j < old_out.len() {
                assert(out@[j] == old_out[j]);
            }
        }
    }
    out
}

/// The entries of a `text/uri-list` argument: trimmed lines without blank
/// lines and `#` comments.
pub fn file_uri_lines(text: &str) -> (r: Vec<String>)
    ensures
        r@.len() == uri_lines(text@).len(),
        forall|i: int| 0 <= i < r@.len() ==> (#[trigger] r@[i])@ == uri_lines(text@)[i],
{
    let chars = chars_of(text);
    let lines = lines_of(&chars);
    let mut out: Vec<String> = Vec::new();
    let mut i: usize = 0;
    while i < lines.len()
        invariant
            chars@ == text@,
            lines@.len() == uri_lines(text@).len(),
            forall|j: int| 0 <= j < lines@.len() ==> (#[trigger] lines@[j])@ == uri_lines(text@)[j],
            i <= lines@.len(),
            out@.len() == i,
            forall|j: int| 0 <= j < i ==> (#[trigger] out@[j])@ == uri_lines(text@)[j],
        decreases lines@.len() - i,
    {
        let line = string_from_chars(lines[i].as_slice());
        out.push(line);
        i = i + 1;
    }
    out
}

/// The characters of `file:`.
pub open spec fn file_scheme_chars() -> Seq<char> {
    seq!['f', 'i', 'l', 'e', ':']
}

/// Whether some entry begins with `file:`.
pub open spec fn names_file_uri(lines: Seq<Seq<char>>) -> bool {
    exists|i: int| 0 <= i < lines.len() && seq_starts_with(#[trigger] lines[i], file_scheme_chars())
}

/// The local path a URI argument names: `None` when no entry is a `file:`
/// URI; the decoded path bytes when it is the only entry.
pub open spec fn file_uri_target(s: Seq<char>) -> Result<Option<Seq<u8>>, UriError> {
    let lines = uri_lines(s);
    if !names_file_uri(lines) {
        Ok(None)
    } else if lines.len() == 1 {
        match local_file_path(encode_utf8(lines[0])) {
            Ok(p) => Ok(Some(p)),
            Err(e) => Err(e),
        }
    } else {
        Err(UriError::MultipleEntries)
    }
}

/// Whether `line` begins with `file:`.
fn starts_with_file(line: &Vec<char>) -> (r: bool)
    ensures
        r == seq_starts_with(line@, file_scheme_chars()),
{
    let r = line.len() >= 5 && line[0] == 'f' && line[1] == 'i' && line[2] == 'l'
        && line[3] == 'e' && line[4] == ':';
    proof {
        if line@.len() >= 5 {
            if r {
                assert(line@.take(5) =~= file_scheme_chars());
            } else {
                if line@.take(5) == file_scheme_chars() {
                    assert(line@.take(5)[0] == line@[0]);
                    assert(line@.take(5)[1] == line@[1]);
                    assert(line@.take(5)[2] == line@[2]);
                    assert(line@.take(5)[3] == line@[3]);
                    assert(line@.take(5)[4] == line@[4]);
                }
            }
        }
    }
    r
}

/// Treats one local `file://` URI as an absolute filesystem path: `None`
/// when the argument is no file URI, the decoded path when it names exactly
/// one.
pub fn file_uri_path(text: &str) -> (r: Result<Option<String>, UriError>)
    ensures
        match file_uri_target(text@) {
            Ok(Some(p)) => r is Ok && r->Ok_0 is Some && r->Ok_0->0@ == decode_utf8(p),
            Ok(None) => r is Ok && r->Ok_0 is None,
            Err(e) => r == Err::<Option<String>, UriError>(e),
        },
{
    let chars = chars_of(text);
    let lines = lines_of(&chars);
    let mut any = false;
    let mut i: usize = 0;
    while i < lines.len()
        invariant
            chars@ == text@,
            lines@.len() == uri_lines(text@).len(),
            forall|j: int| 0 <= j < lines@.len() ==> (#[trigger] lines@[j])@ == uri_lines(text@)[j],
            i <= lines@.len(),
            any == exists|j: int| 0 <= j < i && seq_starts_with(#[trigger] uri_lines(text@)[j], file_scheme_chars()),
        decreases lines@.len() - i,
    {
        let found = starts_with_file(&lines[i]);
        proof {
            if found {
                assert(seq_starts_with(uri_lines(text@)[i as int], file_scheme_chars()));
            }
        }
        any = any || found;
        i = i + 1;
    }
    if !any {
        return Ok(None);
    }
    if lines.len() != 1 {
        return Err(UriError::MultipleEntries);
    }
    let line = string_from_chars(lines[0].as_slice());
    match decode_local_file_uri(line.as_str()) {
        Ok(path) => Ok(Some(path)),
        Err(e) => Err(e),
    }
}

/// A hexadecimal digit reads as its value: `0`-`9` as 0 to 9, and a letter
/// `a`-`f` or `A`-`F` as 10 to 15 counted from `a` or `A`, so an uppercase
/// letter reads as the lowercase one; no other byte is a digit.
pub proof fn lemma_hex_digit_values(b: u8)
    ensures
        '0' as u8 <= b <= '9' as u8 ==> hex_value(b) == Some((b - '0' as u8) as u8),
        'a' as u8 <= b <= 'f' as u8 ==> hex_value(b) == Some((b - 'a' as u8 + 10) as u8),
        'A' as u8 <= b <= 'F' as u8 ==> hex_value(b) == Some((b - 'A' as u8 + 10) as u8),
        'A' as u8 <= b <= 'F' as u8 ==> hex_value(b) == hex_value((b + ('a' as u8 - 'A' as u8)) as u8),
        hex_value(b) is Some <==> ('0' as u8 <= b <= '9' as u8 || 'a' as u8 <= b <= 'f' as u8
            || 'A' as u8 <= b <= 'F' as u8),
        hex_value(b) matches Some(v) ==> v < 16,
{
}

/// An escape `%HL` of two hexadecimal digits decodes to the one byte
/// `16 * H + L`, followed by the decoding of what comes after it.
pub proof fn lemma_escape_decodes_to_its_byte(h: u8, l: u8, rest: Seq<u8>)
    requires
        hex_value(h) is Some,
        hex_value(l) is Some,
    ensures
        percent_decoded(seq!['%' as u8, h, l] + rest)
            == prepend(seq![(16 * hex_value(h)->0 + hex_value(l)->0) as u8], percent_decoded(rest)),
{
    let b = seq!['%' as u8, h, l] + rest;
    assert(b.skip(3) =~= rest);
    assert(b[0] == PERCENT && b[1] == h && b[2] == l);
}

/// A byte other than `%` decodes to itself, followed by the decoding of
/// what comes after it; a `%` without two hexadecimal digits after it makes
/// the whole text undecodable.
pub proof fn lemma_other_bytes_stand_for_themselves(c: u8, h: u8, l: u8, rest: Seq<u8>)
    ensures
        c != '%' as u8 ==> percent_decoded(seq![c] + rest) == prepend(seq![c], percent_decoded(rest)),
        hex_value(h) is None || hex_value(l) is None ==> percent_decoded(seq!['%' as u8, h, l] + rest) is None,
        percent_decoded(seq!['%' as u8]) is None,
        percent_decoded(seq!['%' as u8, h]) is None,
{
    let b = seq![c] + rest;
    assert(b.skip(1) =~= rest);
    assert(b[0] == c);
    let e = seq!['%' as u8, h, l] + rest;
    assert(e[0] == PERCENT && e[1] == h && e[2] == l);
}

/// Bytes without `%` decode to themselves.
proof fn lemma_unescaped_bytes_decode_to_themselves(b: Seq<u8>)
    requires
        !b.contains(PERCENT),
    ensures
        percent_decoded(b) == Some(b),
    decreases b.len(),
{
    if b.len() > 0 {
        assert(b[0] != PERCENT);
        assert(!b.skip(1).contains(PERCENT)) by {
            if b.skip(1).contains(PERCENT) {
                let k = choose|k: int| 0 <= k < b.skip(1).len() && b.skip(1)[k] == PERCENT;
                assert(b[k + 1] == PERCENT);
            }
        }
        lemma_unescaped_bytes_decode_to_themselves(b.skip(1));
        assert(seq![b[0]] + b.skip(1) =~= b);
    }
}

/// An absolute path with no escapes, `?`, `#` or NUL that is valid UTF-8
/// reads back unchanged from `file://` followed by it, and from `file:`
/// followed by it unless it begins with `//`, which would read as a host.
pub proof fn lemma_plain_path_round_trips(p: Seq<u8>)
    requires
        p.len() > 0,
        p[0] == '/' as u8,
        !p.contains('%' as u8),
        !p.contains('?' as u8),
        !p.contains('#' as u8),
        !p.contains(0u8),
        valid_utf8(p),
    ensures
        (p.len() == 1 || p[1] != '/' as u8)
            ==> local_file_path(seq!['f' as u8, 'i' as u8, 'l' as u8, 'e' as u8, ':' as u8] + p)
            == Ok::<Seq<u8>, UriError>(p),
        local_file_path(seq!['f' as u8, 'i' as u8, 'l' as u8, 'e' as u8, ':' as u8, '/' as u8, '/' as u8] + p)
            == Ok::<Seq<u8>, UriError>(p),
{
    lemma_unescaped_bytes_decode_to_themselves(p);
    let u1 = seq!['f' as u8, 'i' as u8, 'l' as u8, 'e' as u8, ':' as u8] + p;
    let u2 = seq!['f' as u8, 'i' as u8, 'l' as u8, 'e' as u8, ':' as u8, '/' as u8, '/' as u8] + p;
    assert(u1.take(5) =~= file_scheme());
    assert(u1.skip(5) =~= p);
    assert(u2.take(5) =~= file_scheme());
    assert(u2.skip(5).skip(2) =~= p);
    assert(u2.skip(5)[0] == SLASH && u2.skip(5)[1] == SLASH);
}

} // verus!
