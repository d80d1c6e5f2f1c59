//! The store-only ZIP encoding used to send a folder as one file.
//!
//! Every regular file becomes one stored (uncompressed) entry: a local file
//! header, the file bytes, and later a central-directory record; an
//! end-of-central-directory record closes the archive. Entry names use `/`
//! between path components and never hold `.` or `..` components.

use vstd::prelude::*;
use vstd::utf8::encode_utf8;
use crate::text::string_from_chars;

verus! {

/// Why a folder could not be archived.
#[derive(Clone, Copy, Debug, PartialEq, Eq, Structural)]
pub enum ArchiveError {
    /// The source is not a directory.
    NotDirectory,
    /// The folder path has no final directory name.
    NoDirectoryName,
    /// More entries than a ZIP count field holds.
    TooManyFiles,
    /// An entry name longer than a ZIP length field holds.
    NameTooLong,
    /// An entry's size changed while it was copied.
    EntryChanged,
    /// The archive would pass the 4 GiB offset limit.
    ArchiveTooLarge,
    /// A file is larger than a stored entry holds.
    FolderTooLarge,
    /// The folder holds a symbolic link.
    SymbolicLink,
    /// An entry lies outside the source directory.
    EscapedSource,
    /// An entry path has a component other than a plain name.
    UnsafePath,
    /// An entry path has no file name.
    NoFileName,
}

impl ArchiveError {
    /// The user-facing description.
    pub fn message(&self) -> (r: &'static str)
        ensures
            r@ == archive_error_message(*self),
    {
        match self {
            ArchiveError::NotDirectory => "folder sharing requires a directory",
            ArchiveError::NoDirectoryName => "folder path has no directory name",
            ArchiveError::TooManyFiles => "folder has too many files to archive",
            ArchiveError::NameTooLong => "folder entry name is too long",
            ArchiveError::EntryChanged => "folder entry changed while archiving",
            ArchiveError::ArchiveTooLarge => "folder archive exceeded 4 GiB",
            ArchiveError::FolderTooLarge => "folder is too large to archive",
            ArchiveError::SymbolicLink => "folder sharing rejects symbolic links",
            ArchiveError::EscapedSource => "folder entry escaped the source directory",
            ArchiveError::UnsafePath => "folder entry has an unsafe path",
            ArchiveError::NoFileName => "folder entry has no file name",
        }
    }
}

/// The user-facing description of an archive error.
pub open spec fn archive_error_message(e: ArchiveError) -> Seq<char> {
    match e {
        ArchiveError::NotDirectory => "folder sharing requires a directory"@,
        ArchiveError::NoDirectoryName => "folder path has no directory name"@,
        ArchiveError::TooManyFiles => "folder has too many files to archive"@,
        ArchiveError::NameTooLong => "folder entry name is too long"@,
        ArchiveError::EntryChanged => "folder entry changed while archiving"@,
        ArchiveError::ArchiveTooLarge => "folder archive exceeded 4 GiB"@,
        ArchiveError::FolderTooLarge => "folder is too large to archive"@,
        ArchiveError::SymbolicLink => "folder sharing rejects symbolic links"@,
        ArchiveError::EscapedSource => "folder entry escaped the source directory"@,
        ArchiveError::UnsafePath => "folder entry has an unsafe path"@,
        ArchiveError::NoFileName => "folder entry has no file name"@,
    }
}

/// The reflected IEEE polynomial.
pub const CRC32_POLYNOMIAL: u32 = 0xEDB8_8320;

/// One bit step of the reflected CRC-32 register.
pub open spec fn crc_round(c: u32) -> u32 {
    if c & 1 == 1 { (c >> 1) ^ CRC32_POLYNOMIAL } else { c >> 1 }
}

/// `n` bit steps of the register.
pub open spec fn crc_rounds(c: u32, n: nat) -> u32
    decreases n,
{
    if n == 0 { c } else { crc_round(crc_rounds(c, (n - 1) as nat)) }
}

/// The register after one more byte.
pub open spec fn crc_byte(c: u32, b: u8) -> u32 {
    crc_rounds(c ^ (b as u32), 8)
}

/// The register after `bytes`, starting from `c` (no pre- or post-inversion).
pub open spec fn crc_update_spec(c: u32, bytes: Seq<u8>) -> u32
    decreases bytes.len(),
{
    if bytes.len() == 0 {
        c
    } else {
        crc_byte(crc_update_spec(c, bytes.drop_last()), bytes.last())
    }
}

/// The IEEE CRC-32 of `bytes`.
pub open spec fn crc32_spec(bytes: Seq<u8>) -> u32 {
    !crc_update_spec(0xFFFF_FFFF, bytes)
}

/// Updates an IEEE CRC-32 register over the next chunk.
pub fn crc32_update(crc: u32, bytes: &[u8]) -> (r: u32)
    ensures
        r == crc_update_spec(crc, bytes@),
{
    let mut c = crc;
    let mut i: usize = 0;
    while i < bytes.len()
        invariant
            i <= bytes@.len(),
            c == crc_update_spec(crc, bytes@.take(i as int)),
        decreases bytes@.len() - i,
    {
        assert(bytes@.take(i + 1).drop_last() =~= bytes@.take(i as int));
        let start = c ^ (bytes[i] as u32);
        c = start;
        let mut k: u32 = 0;
        while k < 8
            invariant
                k <= 8,
                c == crc_rounds(start, k as nat),
            decreases 8 - k,
        {
            c = if c & 1 == 1 { (c >> 1) ^ CRC32_POLYNOMIAL } else { c >> 1 };
            k = k + 1;
        }
        i = i + 1;
    }
    assert(bytes@.take(bytes@.len() as int) =~= bytes@);
    c
}

/// Updating in chunks equals updating over the whole buffer: the register
/// after `a` then `b` is the register after `a + b`.
pub proof fn lemma_crc_chunks(c: u32, a: Seq<u8>, b: Seq<u8>)
    ensures
        crc_update_spec(crc_update_spec(c, a), b) == crc_update_spec(c, a + b),
    decreases b.len(),
{
    if b.len() == 0 {
        assert(a + b =~= a);
    } else {
        lemma_crc_chunks(c, a, b.drop_last());
        assert((a + b).drop_last() =~= a + b.drop_last());
        assert((a + b).last() == b.last());
    }
}

/// Running CRC-32 and size of one file read in chunks.
pub struct ChecksumState {
    crc: u32,
    size: u64,
}

impl ChecksumState {
    /// The register after the bytes seen so far.
    pub closed spec fn register(&self) -> u32 {
        self.crc
    }

    /// The number of bytes seen so far.
    pub closed spec fn size_spec(&self) -> u64 {
        self.size
    }

    /// Nothing read yet.
    pub fn new() -> (r: ChecksumState)
        ensures
            r.register() == 0xFFFF_FFFFu32,
            r.size_spec() == 0,
    {
        ChecksumState { crc: 0xFFFF_FFFF, size: 0 }
    }

    /// Adds the next chunk.
    pub fn update(&mut self, chunk: &[u8]) -> (r: Result<(), ArchiveError>)
        ensures
            if chunk@.len() > u32::MAX || old(self).size_spec() + chunk@.len() > u64::MAX {
                r == Err::<(), ArchiveError>(ArchiveError::FolderTooLarge)
            } else {
                &&& r is Ok
                &&& final(self).register() == crc_update_spec(old(self).register(), chunk@)
                &&& final(self).size_spec() == old(self).size_spec() + chunk@.len()
            },
    {
        if chunk.len() > 0xFFFF_FFFF {
            return Err(ArchiveError::FolderTooLarge);
        }
        let read = chunk.len() as u64;
        match self.size.checked_add(read) {
            Some(size) => {
                self.crc = crc32_update(self.crc, chunk);
                self.size = size;
                Ok(())
            },
            None => Err(ArchiveError::FolderTooLarge),
        }
    }

    /// The CRC-32 and the stored size.
    pub fn finish(&self) -> (r: Result<(u32, u32), ArchiveError>)
        ensures
            if self.size_spec() > u32::MAX {
                r == Err::<(u32, u32), ArchiveError>(ArchiveError::FolderTooLarge)
            } else {
                r == Ok::<(u32, u32), ArchiveError>((!self.register(), self.size_spec() as u32))
            },
    {
        if self.size > 0xFFFF_FFFF {
            return Err(ArchiveError::FolderTooLarge);
        }
        Ok((!self.crc, self.size as u32))
    }
}

/// Little-endian bytes of a `u16`.
pub open spec fn le16(v: u16) -> Seq<u8> {
    seq![(v % 256) as u8, (v / 256) as u8]
}

/// Little-endian bytes of a `u32`.
pub open spec fn le32(v: u32) -> Seq<u8> {
    seq![(v % 256) as u8, (v / 256 % 256) as u8, (v / 65536 % 256) as u8, (v / 16777216) as u8]
}

fn push_le16(out: &mut Vec<u8>, v: u16)
    ensures
        final(out)@ == old(out)@ + le16(v),
{
    out.push((v % 256) as u8);
    out.push((v / 256) as u8);
    assert(final(out)@ =~= old(out)@ + le16(v));
}

fn push_le32(out: &mut Vec<u8>, v: u32)
    ensures
        final(out)@ == old(out)@ + le32(v),
{
    out.push((v % 256) as u8);
    out.push((v / 256 % 256) as u8);
    out.push((v / 65536 % 256) as u8);
    out.push((v / 16777216) as u8);
    assert(final(out)@ =~= old(out)@ + le32(v));
}

fn push_all(out: &mut Vec<u8>, bytes: &[u8])
    ensures
        final(out)@ == old(out)@ + bytes@,
{
    let mut i: usize = 0;
    while i < bytes.len()
        invariant
            i <= bytes@.len(),
            out@ == old(out)@ + bytes@.take(i as int),
        decreases bytes@.len() - i,
    {
        out.push(bytes[i]);
        assert(bytes@.take(i + 1) =~= bytes@.take(i as int).push(bytes@[i as int]));
        i = i + 1;
    }
    assert(bytes@.take(bytes@.len() as int) =~= bytes@);
}

/// The local file header of a stored entry.
pub open spec fn local_header_spec(name: Seq<u8>, name_len: u16, crc: u32, size: u32) -> Seq<u8> {
    le32(0x0403_4b50) + le16(20) + le16(0) + le16(0) + le16(0) + le16(0)
        + le32(crc) + le32(size) + le32(size) + le16(name_len) + le16(0) + name
}

/// Encodes the local file header of one stored entry.
pub fn local_header(name: &[u8], name_len: u16, crc: u32, size: u32) -> (r: Vec<u8>)
    ensures
        r@ == local_header_spec(name@, name_len, crc, size),
{
    let mut out: Vec<u8> = Vec::new();
    push_le32(&mut out, 0x0403_4b50);
    push_le16(&mut out, 20);
    push_le16(&mut out, 0);
    push_le16(&mut out, 0);
    push_le16(&mut out, 0);
    push_le16(&mut out, 0);
    push_le32(&mut out, crc);
    push_le32(&mut out, size);
    push_le32(&mut out, size);
    push_le16(&mut out, name_len);
    push_le16(&mut out, 0);
    push_all(&mut out, name);
    assert(out@ =~= local_header_spec(name@, name_len, crc, size));
    out
}

/// One central-directory record for a stored file.
pub struct Central {
    /// CRC-32 of the file bytes.
    pub crc: u32,
    /// Archive-relative name using `/` separators.
    pub name: Vec<u8>,
    /// Length of `name`.
    pub name_len: u16,
    /// Offset of the local header from the start of the archive.
    pub offset: u32,
    /// Stored size, equal to the file size.
    pub size: u32,
}

/// The central-directory record of one entry.
pub open spec fn central_header_spec(crc: u32, name: Seq<u8>, name_len: u16, offset: u32, size: u32) -> Seq<u8> {
    le32(0x0201_4b50) + le16(20) + le16(20) + le16(0) + le16(0) + le16(0) + le16(0)
        + le32(crc) + le32(size) + le32(size) + le16(name_len) + le16(0) + le16(0)
        + le16(0) + le16(0) + le32(0) + le32(offset) + name
}

/// Encodes one central-directory record.
pub fn central_header(entry: &Central) -> (r: Vec<u8>)
    ensures
        r@ == central_header_spec(entry.crc, entry.name@, entry.name_len, entry.offset, entry.size),
{
    let mut out: Vec<u8> = Vec::new();
    push_le32(&mut out, 0x0201_4b50);
    push_le16(&mut out, 20);
    push_le16(&mut out, 20);
    push_le16(&mut out, 0);
    push_le16(&mut out, 0);
    push_le16(&mut out, 0);
    push_le16(&mut out, 0);
    push_le32(&mut out, entry.crc);
    push_le32(&mut out, entry.size);
    push_le32(&mut out, entry.size);
    push_le16(&mut out, entry.name_len);
    push_le16(&mut out, 0);
    push_le16(&mut out, 0);
    push_le16(&mut out, 0);
    push_le16(&mut out, 0);
    push_le32(&mut out, 0);
    push_le32(&mut out, entry.offset);
    push_all(&mut out, entry.name.as_slice());
    assert(out@ =~= central_header_spec(entry.crc, entry.name@, entry.name_len, entry.offset, entry.size));
    out
}

/// The end-of-central-directory record.
pub open spec fn eocd_spec(count: u16, directory_size: u32, directory_start: u32) -> Seq<u8> {
    le32(0x0605_4b50) + le16(0) + le16(0) + le16(count) + le16(count)
        + le32(directory_size) + le32(directory_start) + le16(0)
}

/// Encodes the end-of-central-directory record.
pub fn eocd(count: u16, directory_size: u32, directory_start: u32) -> (r: Vec<u8>)
    ensures
        r@ == eocd_spec(count, directory_size, directory_start),
{
    let mut out: Vec<u8> = Vec::new();
    push_le32(&mut out, 0x0605_4b50);
    push_le16(&mut out, 0);
    push_le16(&mut out, 0);
    push_le16(&mut out, count);
    push_le16(&mut out, count);
    push_le32(&mut out, directory_size);
    push_le32(&mut out, directory_start);
    push_le16(&mut out, 0);
    assert(out@ =~= eocd_spec(count, directory_size, directory_start));
    out
}

/// The central-directory byte length of records with these name lengths.
pub open spec fn directory_size_spec(name_lens: Seq<u16>) -> int
    decreases name_lens.len(),
{
    if name_lens.len() == 0 {
        0
    } else {
        directory_size_spec(name_lens.drop_last()) + 46 + name_lens.last()
    }
}

/// The name lengths of central records.
pub open spec fn name_lens(entries: Seq<Central>) -> Seq<u16> {
    entries.map_values(|e: Central| e.name_len)
}

/// The size only grows with more records.
proof fn lemma_directory_size_grows(lens: Seq<u16>, k: int)
    requires
        0 <= k <= lens.len(),
    ensures
        directory_size_spec(lens.take(k)) <= directory_size_spec(lens),
    decreases lens.len(),
{
    if k < lens.len() {
        lemma_directory_size_grows(lens.drop_last(), k);
        assert(lens.drop_last().take(k) =~= lens.take(k));
    } else {
        assert(lens.take(k) =~= lens);
    }
}

/// Returns the central-directory byte length, or an error past 4 GiB.
pub fn offset_after_directory(directory: &[Central]) -> (r: Result<u32, ArchiveError>)
    ensures
        if directory_size_spec(name_lens(directory@)) > u32::MAX {
            r == Err::<u32, ArchiveError>(ArchiveError::ArchiveTooLarge)
        } else {
            r == Ok::<u32, ArchiveError>(directory_size_spec(name_lens(directory@)) as u32)
        },
{
    let ghost lens = name_lens(directory@);
    let mut size: u32 = 0;
    let mut i: usize = 0;
    while i < directory.len()
        invariant
            i <= directory@.len(),
            lens == name_lens(directory@),
            size == directory_size_spec(lens.take(i as int)),
        decreases directory@.len() - i,
    {
        assert(lens.take(i + 1).drop_last() =~= lens.take(i as int));
        assert(lens.take(i + 1).last() == directory@[i as int].name_len);
        let next = match size.checked_add(46) {
            Some(v) => v.checked_add(directory[i].name_len as u32),
            None => None,
        };
        match next {
            Some(v) => {
                size = v;
            },
            None => {
                proof {
                    lemma_directory_size_grows(lens, i + 1);
                }
                return Err(ArchiveError::ArchiveTooLarge);
            },
        }
        i = i + 1;
    }
    assert(lens.take(directory@.len() as int) =~= lens);
    Ok(size)
}

/// The offset after one stored entry, or an error past 4 GiB.
pub fn next_offset(offset: u32, name_len: u16, size: u32) -> (r: Result<u32, ArchiveError>)
    ensures
        if offset + 30 + name_len + size > u32::MAX {
            r == Err::<u32, ArchiveError>(ArchiveError::ArchiveTooLarge)
        } else {
            r == Ok::<u32, ArchiveError>((offset + 30 + name_len + size) as u32)
        },
{
    let next = match offset.checked_add(30) {
        Some(v) => match v.checked_add(name_len as u32) {
            Some(w) => w.checked_add(size),
            None => None,
        },
        None => None,
    };
    match next {
        Some(v) => Ok(v),
        None => Err(ArchiveError::ArchiveTooLarge),
    }
}

/// The length of an entry name as a ZIP field.
pub fn name_length(name: &[u8]) -> (r: Result<u16, ArchiveError>)
    ensures
        if name@.len() > u16::MAX {
            r == Err::<u16, ArchiveError>(ArchiveError::NameTooLong)
        } else {
            r == Ok::<u16, ArchiveError>(name@.len() as u16)
        },
{
    if name.len() > 0xFFFF {
        Err(ArchiveError::NameTooLong)
    } else {
        Ok(name.len() as u16)
    }
}

/// The number of entries as a ZIP field.
pub fn entry_count(count: usize) -> (r: Result<u16, ArchiveError>)
    ensures
        if count > u16::MAX {
            r == Err::<u16, ArchiveError>(ArchiveError::TooManyFiles)
        } else {
            r == Ok::<u16, ArchiveError>(count as u16)
        },
{
    if count > 0xFFFF {
        Err(ArchiveError::TooManyFiles)
    } else {
        Ok(count as u16)
    }
}

/// One component of a relative entry path.
pub enum PathPart {
    /// A plain file or directory name.
    Normal(String),
    /// A root, prefix, `.` or `..` component.
    Special,
}

/// The name characters of path parts joined with `/`; a separator goes
/// before a part only once the name is non-empty.
pub open spec fn joined_parts(parts: Seq<Seq<char>>) -> Seq<char>
    decreases parts.len(),
{
    if parts.len() == 0 {
        Seq::empty()
    } else {
        let before = joined_parts(parts.drop_last());
        if before.len() == 0 {
            parts.last()
        } else {
            before + seq!['/'] + parts.last()
        }
    }
}

/// Whether every part is a plain name.
pub open spec fn all_normal(parts: Seq<PathPart>) -> bool {
    forall|i: int| 0 <= i < parts.len() ==> (#[trigger] parts[i]) is Normal
}

/// The names of plain parts.
pub open spec fn part_names(parts: Seq<PathPart>) -> Seq<Seq<char>> {
    parts.map_values(|p: PathPart| match p {
        PathPart::Normal(s) => s@,
        PathPart::Special => Seq::empty(),
    })
}

/// The ZIP entry name of a relative path: its UTF-8 bytes with `/`
/// separators, refused when a component is not a plain name or the name is
/// empty.
pub open spec fn zip_name_spec(parts: Seq<PathPart>) -> Result<Seq<u8>, ArchiveError> {
    if !all_normal(parts) {
        Err(ArchiveError::UnsafePath)
    } else if joined_parts(part_names(parts)).len() == 0 {
        Err(ArchiveError::NoFileName)
    } else {
        Ok(encode_utf8(joined_parts(part_names(parts))))
    }
}

/// Encodes a relative path as a ZIP name without `.` or `..` components.
pub fn zip_name(parts: &[PathPart]) -> (r: Result<Vec<u8>, ArchiveError>)
    ensures
        match zip_name_spec(parts@) {
            Ok(n) => r is Ok && r->Ok_0@ == n,
            Err(e) => r == Err::<Vec<u8>, ArchiveError>(e),
        },
{
    let ghost names = part_names(parts@);
    let mut name: Vec<char> = Vec::new();
    let mut i: usize = 0;
    while i < parts.len()
        invariant
            i <= parts@.len(),
            names == part_names(parts@),
            forall|j: int| 0 <= j < i ==> (#[trigger] parts@[j]) is Normal,
            name@ == joined_parts(names.take(i as int)),
        decreases parts@.len() - i,
    {
        assert(names.take(i + 1).drop_last() =~= names.take(i as int));
        match &parts[i] {
            PathPart::Normal(part) => {
                let chars = crate::text::chars_of(part.as_str());
                assert(names.take(i + 1).last() == part@);
                let ghost before = name@;
                if name.len() > 0 {
                    name.push('/');
                }
                let mut k: usize = 0;
                while k < chars.len()
                    invariant
                        k <= chars@.len(),
                        name@ == (if before.len() == 0 { Seq::<char>::empty() } else { before + seq!['/'] }) + chars@.take(k as int),
                    decreases chars@.len() - k,
                {
                    name.push(chars[k]);
                    assert(chars@.take(k + 1) =~= chars@.take(k as int).push(chars@[k as int]));
                    k = k + 1;
                }
                assert(chars@.take(chars@.len() as int) =~= chars@);
                assert(name@ =~= joined_parts(names.take(i + 1)));
            },
            PathPart::Special => {
                return Err(ArchiveError::UnsafePath);
            },
        }
        i = i + 1;
    }
    assert(names.take(parts@.len() as int) =~= names);
    if name.len() == 0 {
        return Err(ArchiveError::NoFileName);
    }
    let text = string_from_chars(name.as_slice());
    let bytes = text.as_str().as_bytes();
    let mut out: Vec<u8> = Vec::new();
    push_all(&mut out, bytes);
    assert(out@ =~= encode_utf8(name@));
    Ok(out)
}

/// The number a little-endian field of bytes holds.
pub open spec fn le_value(b: Seq<u8>) -> int
    decreases b.len(),
{
    if b.len() == 0 {
        0
    } else {
        b[0] + 256 * le_value(b.skip(1))
    }
}

/// Little-endian fields read back as the numbers written into them.
proof fn lemma_le_fields_read_back(a: u16, v: u32)
    ensures
        le16(a).len() == 2,
        le_value(le16(a)) == a,
        le32(v).len() == 4,
        le_value(le32(v)) == v,
{
    let s = le16(a);
    assert(s.skip(1).skip(1) =~= Seq::<u8>::empty());
    assert(le_value(s.skip(1)) == s[1] + 256 * le_value(s.skip(1).skip(1)));
    assert(a == (a % 256) + 256 * (a / 256));
    let w = le32(v);
    assert(w.skip(1).skip(1).skip(1).skip(1) =~= Seq::<u8>::empty());
    assert(le_value(w.skip(1).skip(1).skip(1)) == w[3] + 256 * le_value(w.skip(1).skip(1).skip(1).skip(1)));
    assert(le_value(w.skip(1).skip(1)) == w[2] + 256 * le_value(w.skip(1).skip(1).skip(1)));
    assert(le_value(w.skip(1)) == w[1] + 256 * le_value(w.skip(1).skip(1)));
    assert(v == (v % 256) + 256 * ((v / 256 % 256) + 256 * ((v / 65536 % 256) + 256 * (v / 16777216))));
}

/// The local header of a stored entry in bytes: the signature `PK\x03\x04`,
/// version 2.0 needed, no flags, compression method 0 (stored), a zero
/// time and date, the CRC-32, the same compressed and uncompressed size,
/// the name length, no extra field, then the name: 30 bytes before it.
pub proof fn lemma_local_header_layout(name: Seq<u8>, name_len: u16, crc: u32, size: u32)
    ensures
        ({
            let h = local_header_spec(name, name_len, crc, size);
            &&& h.len() == 30 + name.len()
            &&& h.subrange(0, 4) == seq![0x50u8, 0x4b, 3, 4]
            &&& h.subrange(4, 6) == seq![20u8, 0]
            &&& h.subrange(6, 8) == seq![0u8, 0]
            &&& h.subrange(8, 10) == seq![0u8, 0]
            &&& h.subrange(10, 14) == seq![0u8, 0, 0, 0]
            &&& le_value(h.subrange(14, 18)) == crc
            &&& le_value(h.subrange(18, 22)) == size
            &&& le_value(h.subrange(22, 26)) == size
            &&& le_value(h.subrange(26, 28)) == name_len
            &&& h.subrange(28, 30) == seq![0u8, 0]
            &&& h.subrange(30, h.len() as int) == name
        }),
{
    let h = local_header_spec(name, name_len, crc, size);
    lemma_le_fields_read_back(name_len, crc);
    lemma_le_fields_read_back(0, size);
    lemma_le_fields_read_back(20, 0x0403_4b50);
    assert(h.subrange(0, 4) =~= le32(0x0403_4b50));
    assert(h.subrange(4, 6) =~= le16(20));
    assert(h.subrange(6, 8) =~= le16(0));
    assert(h.subrange(8, 10) =~= le16(0));
    assert(h.subrange(10, 14) =~= le16(0) + le16(0));
    assert(h.subrange(14, 18) =~= le32(crc));
    assert(h.subrange(18, 22) =~= le32(size));
    assert(h.subrange(22, 26) =~= le32(size));
    assert(h.subrange(26, 28) =~= le16(name_len));
    assert(h.subrange(28, 30) =~= le16(0));
    assert(h.subrange(30, h.len() as int) =~= name);
}

/// The central-directory record in bytes: the signature `PK\x01\x02`,
/// version 2.0 made by and needed, no flags, compression method 0 (stored)
/// as in the local header, a zero time and date, the CRC-32, the same
/// compressed and uncompressed size, the name length, no extra field,
/// comment, disk or attributes, the local header's offset, then the name:
/// 46 bytes before it.
pub proof fn lemma_central_header_layout(crc: u32, name: Seq<u8>, name_len: u16, offset: u32, size: u32)
    ensures
        ({
            let h = central_header_spec(crc, name, name_len, offset, size);
            &&& h.len() == 46 + name.len()
            &&& h.subrange(0, 4) == seq![0x50u8, 0x4b, 1, 2]
            &&& h.subrange(4, 6) == seq![20u8, 0]
            &&& h.subrange(6, 8) == seq![20u8, 0]
            &&& h.subrange(8, 10) == seq![0u8, 0]
            &&& h.subrange(10, 12) == seq![0u8, 0]
            &&& h.subrange(12, 16) == seq![0u8, 0, 0, 0]
            &&& le_value(h.subrange(16, 20)) == crc
            &&& le_value(h.subrange(20, 24)) == size
            &&& le_value(h.subrange(24, 28)) == size
            &&& le_value(h.subrange(28, 30)) == name_len
            &&& h.subrange(30, 42) == Seq::new(12, |i: int| 0u8)
            &&& le_value(h.subrange(42, 46)) == offset
            &&& h.subrange(46, h.len() as int) == name
        }),
{
    let h = central_header_spec(crc, name, name_len, offset, size);
    lemma_le_fields_read_back(name_len, crc);
    lemma_le_fields_read_back(0, size);
    lemma_le_fields_read_back(20, offset);
    lemma_le_fields_read_back(0, 0x0201_4b50);
    assert(h.subrange(0, 4) =~= le32(0x0201_4b50));
    assert(h.subrange(4, 6) =~= le16(20));
    assert(h.subrange(6, 8) =~= le16(20));
    assert(h.subrange(8, 10) =~= le16(0));
    assert(h.subrange(10, 12) =~= le16(0));
    assert(h.subrange(12, 16) =~= le16(0) + le16(0));
    assert(h.subrange(16, 20) =~= le32(crc));
    assert(h.subrange(20, 24) =~= le32(size));
    assert(h.subrange(24, 28) =~= le32(size));
    assert(h.subrange(28, 30) =~= le16(name_len));
    assert(h.subrange(30, 42) =~= Seq::new(12, |i: int| 0u8));
    assert(h.subrange(42, 46) =~= le32(offset));
    assert(h.subrange(46, h.len() as int) =~= name);
}

/// The local header and the central-directory record of one entry agree:
/// the same compression method (stored), CRC-32, sizes, name length and
/// name.
pub proof fn lemma_headers_agree(name: Seq<u8>, name_len: u16, crc: u32, offset: u32, size: u32)
    ensures
        ({
            let l = local_header_spec(name, name_len, crc, size);
            let c = central_header_spec(crc, name, name_len, offset, size);
            &&& l.subrange(8, 10) == c.subrange(10, 12)
            &&& l.subrange(14, 30) == c.subrange(16, 32)
            &&& l.subrange(30, l.len() as int) == c.subrange(46, c.len() as int)
        }),
{
    let l = local_header_spec(name, name_len, crc, size);
    let c = central_header_spec(crc, name, name_len, offset, size);
    let fields = le32(crc) + le32(size) + le32(size) + le16(name_len) + le16(0);
    assert(l.subrange(8, 10) =~= le16(0));
    assert(c.subrange(10, 12) =~= le16(0));
    assert(l.subrange(14, 30) =~= fields);
    assert(c.subrange(16, 32) =~= fields);
    assert(l.subrange(30, l.len() as int) =~= name);
    assert(c.subrange(46, c.len() as int) =~= name);
}

/// The end-of-central-directory record in bytes: the signature
/// `PK\x05\x06`, disk numbers 0, the entry count on this disk and in all,
/// the directory's size and start, and no comment: 22 bytes.
pub proof fn lemma_eocd_layout(count: u16, directory_size: u32, directory_start: u32)
    ensures
        ({
            let h = eocd_spec(count, directory_size, directory_start);
            &&& h.len() == 22
            &&& h.subrange(0, 4) == seq![0x50u8, 0x4b, 5, 6]
            &&& h.subrange(4, 8) == seq![0u8, 0, 0, 0]
            &&& le_value(h.subrange(8, 10)) == count
            &&& le_value(h.subrange(10, 12)) == count
            &&& le_value(h.subrange(12, 16)) == directory_size
            &&& le_value(h.subrange(16, 20)) == directory_start
            &&& h.subrange(20, 22) == seq![0u8, 0]
        }),
{
    let h = eocd_spec(count, directory_size, directory_start);
    lemma_le_fields_read_back(count, directory_size);
    lemma_le_fields_read_back(0, directory_start);
    lemma_le_fields_read_back(0, 0x0605_4b50);
    assert(h.subrange(0, 4) =~= le32(0x0605_4b50));
    assert(h.subrange(4, 8) =~= le16(0) + le16(0));
    assert(h.subrange(8, 10) =~= le16(count));
    assert(h.subrange(10, 12) =~= le16(count));
    assert(h.subrange(12, 16) =~= le32(directory_size));
    assert(h.subrange(16, 20) =~= le32(directory_start));
    assert(h.subrange(20, 22) =~= le16(0));
}

} // verus!
