use vstd::prelude::*;

use crate::file_type::FileType;
use crate::file_type::file_type_of;
use crate::file_type::file_type_spec;
use crate::filter::FilterResult;
use crate::filter::SimpleFilter;
use crate::header::Header;

verus! {

#[verifier::external_type_specification]
#[verifier::external_body]
pub struct ExIoError(std::io::Error);

/// Where a header block holds its type code.
pub open spec fn type_flag_offset() -> int {
    156
}

/// The type code that tar reads from a header block: a zero byte counts as `'0'`.
pub open spec fn type_code_spec(block: Seq<u8>) -> u8 {
    if block[type_flag_offset()] == 0 {
        0x30
    } else {
        block[type_flag_offset()]
    }
}

/// What tar decodes from the size field of a header block; `None` when it does not decode.
pub uninterp spec fn parsed_entry_size(block: Seq<u8>) -> Option<u64>;

/// What tar decodes from the mode field; `None` when it does not decode.
pub uninterp spec fn parsed_mode(block: Seq<u8>) -> Option<u32>;

/// What tar decodes from the owner id field; `None` when it does not decode.
pub uninterp spec fn parsed_uid(block: Seq<u8>) -> Option<u64>;

/// What tar decodes from the group id field; `None` when it does not decode.
pub uninterp spec fn parsed_gid(block: Seq<u8>) -> Option<u64>;

/// What tar decodes from the modification time field; `None` when it does not decode.
pub uninterp spec fn parsed_mtime(block: Seq<u8>) -> Option<u64>;

/// What tar decodes from the major device field; `None` when it does not decode.
pub uninterp spec fn parsed_device_major(block: Seq<u8>) -> Option<Option<u32>>;

/// What tar decodes from the minor device field; `None` when it does not decode.
pub uninterp spec fn parsed_device_minor(block: Seq<u8>) -> Option<Option<u32>>;

/// The block carries the ustar magic and version (`"ustar\0"`, `"00"`) or the
/// GNU ones (`"ustar "`, `" \0"`), and with them the owner and group name fields.
pub open spec fn has_name_fields(block: Seq<u8>) -> bool {
    let m = block.subrange(257, 265);
    m == seq![0x75u8, 0x73, 0x74, 0x61, 0x72, 0x00, 0x30, 0x30] || m == seq![
        0x75u8,
        0x73,
        0x74,
        0x61,
        0x72,
        0x20,
        0x20,
        0x00,
    ]
}

/// `r` is `field` up to its first zero byte, or all of it when it has none.
pub open spec fn cut_at_nul(field: Seq<u8>, r: Seq<u8>) -> bool {
    &&& r.len() <= field.len()
    &&& r == field.subrange(0, r.len() as int)
    &&& forall|j: int| 0 <= j < r.len() ==> r[j] != 0
    &&& r.len() < field.len() ==> field[r.len() as int] == 0
}

/// A name field as tar reads it from bytes `start .. start + 32` of `block`:
/// absent unless the block has name fields.
pub open spec fn name_field(block: Seq<u8>, start: int, r: Option<Seq<u8>>) -> bool {
    match r {
        Some(v) => has_name_fields(block) && cut_at_nul(block.subrange(start, start + 32), v),
        None => !has_name_fields(block),
    }
}

pub open spec fn bytes_view(o: Option<Vec<u8>>) -> Option<Seq<u8>> {
    match o {
        Some(v) => Some(v@),
        None => None,
    }
}

/// `r` is `Ok(v)` exactly when the named parse gives `Some(v)`.
pub open spec fn agrees<T>(r: Result<T, std::io::Error>, parsed: Option<T>) -> bool {
    match r {
        Ok(v) => parsed == Some(v),
        Err(_) => parsed is None,
    }
}

/// The type code of a header block, read as tar's `Header::entry_type` reads it.
fn block_type_code(block: &[u8; 512]) -> (r: u8)
    ensures
        r == type_code_spec(block@),
{
    let flag: u8 = block[156];
    if flag == 0 {
        0x30
    } else {
        flag
    }
}

/// Relies on tar's `Header::entry_size`: the size field, octal or base-256.
#[verifier::external_body]
fn block_entry_size(block: &[u8; 512]) -> (r: Result<u64, std::io::Error>)
    ensures
        agrees(r, parsed_entry_size(block@)),
{
    tar::Header::from_byte_slice(block).entry_size()
}

/// Relies on tar's `Header::mode`: the permission bits field.
#[verifier::external_body]
fn block_mode(block: &[u8; 512]) -> (r: Result<u32, std::io::Error>)
    ensures
        agrees(r, parsed_mode(block@)),
{
    tar::Header::from_byte_slice(block).mode()
}

/// Relies on tar's `Header::uid`: the owner id field.
#[verifier::external_body]
fn block_uid(block: &[u8; 512]) -> (r: Result<u64, std::io::Error>)
    ensures
        agrees(r, parsed_uid(block@)),
{
    tar::Header::from_byte_slice(block).uid()
}

/// Relies on tar's `Header::gid`: the group id field.
#[verifier::external_body]
fn block_gid(block: &[u8; 512]) -> (r: Result<u64, std::io::Error>)
    ensures
        agrees(r, parsed_gid(block@)),
{
    tar::Header::from_byte_slice(block).gid()
}

/// Relies on tar's `Header::mtime`: the modification time field, in seconds.
#[verifier::external_body]
fn block_mtime(block: &[u8; 512]) -> (r: Result<u64, std::io::Error>)
    ensures
        agrees(r, parsed_mtime(block@)),
{
    tar::Header::from_byte_slice(block).mtime()
}

/// Relies on tar's `Header::device_major`: the major device number, absent
/// in headers of the old format.
#[verifier::external_body]
fn block_device_major(block: &[u8; 512]) -> (r: Result<Option<u32>, std::io::Error>)
    ensures
        agrees(r, parsed_device_major(block@)),
{
    tar::Header::from_byte_slice(block).device_major()
}

/// Relies on tar's `Header::device_minor`: the minor device number, absent
/// in headers of the old format.
#[verifier::external_body]
fn block_device_minor(block: &[u8; 512]) -> (r: Result<Option<u32>, std::io::Error>)
    ensures
        agrees(r, parsed_device_minor(block@)),
{
    tar::Header::from_byte_slice(block).device_minor()
}

/// Relies on tar's `Header::username_bytes`: for a ustar or GNU block, the
/// owner name field cut at its first zero byte; absent for other blocks.
#[verifier::external_body]
fn block_username(block: &[u8; 512]) -> (r: Option<Vec<u8>>)
    ensures
        name_field(block@, 265, bytes_view(r)),
{
    tar::Header::from_byte_slice(block).username_bytes().map(|b| b.to_vec())
}

/// Relies on tar's `Header::groupname_bytes`: for a ustar or GNU block, the
/// group name field cut at its first zero byte; absent for other blocks.
#[verifier::external_body]
fn block_groupname(block: &[u8; 512]) -> (r: Option<Vec<u8>>)
    ensures
        name_field(block@, 297, bytes_view(r)),
{
    tar::Header::from_byte_slice(block).groupname_bytes().map(|b| b.to_vec())
}

/// One entry as read from an archive: its raw header block, and the path,
/// link target and content size that the reader resolved for it (long-name
/// extensions included).
pub struct RawEntry {
    pub block: [u8; 512],
    pub path: Vec<u8>,
    pub link_name: Option<Vec<u8>>,
    pub size: u64,
}

/// A required header field.
#[derive(Debug, Clone, Copy, PartialEq, Eq, Structural)]
pub enum HeaderField {
    EntrySize,
    Mode,
    Uid,
    Gid,
    Mtime,
}

/// A required header field that could not be decoded, with the cause.
pub struct DecodeError {
    pub field: HeaderField,
    pub cause: std::io::Error,
}

/// A normalized header, with the decode failures of the optional device
/// fields that were recovered (reported only in verbose mode).
pub struct Normalized {
    pub header: Header,
    pub warnings: Vec<std::io::Error>,
}

/// Gives the entry kind of an entry.
pub trait FileTypeLike {
    spec fn file_type_spec_of(&self) -> FileType;

    fn to_file_type(&self) -> (r: FileType)
        ensures
            r == self.file_type_spec_of(),
    ;
}

/// Normalizes the metadata of an entry.
pub trait HeaderLike {
    /// The first required field that does not decode, if any.
    spec fn first_failure(&self) -> Option<HeaderField>;

    /// `h` is the normalized form of this entry.
    spec fn describes(&self, h: &Header) -> bool;

    /// How many optional fields failed to decode.
    spec fn recovered_failures(&self) -> nat;

    fn to_header(&self, verbose: bool) -> (r: Result<Normalized, DecodeError>)
        ensures
            r is Ok <==> self.first_failure() is None,
            r matches Err(e) ==> self.first_failure() == Some(e.field),
            r matches Ok(n) ==> self.describes(&n.header),
            r matches Ok(n) ==> n.warnings@.len() == if verbose {
                self.recovered_failures()
            } else {
                0
            },
    ;
}

/// A device number as normalized: absent when the field is absent or fails to decode.
pub open spec fn device_value(parsed: Option<Option<u32>>) -> Option<u64> {
    match parsed {
        Some(Some(v)) => Some(v as u64),
        _ => None,
    }
}

pub open spec fn failed_count(parsed: Option<Option<u32>>) -> nat {
    if parsed is None {
        1
    } else {
        0
    }
}

impl FileTypeLike for RawEntry {
    open spec fn file_type_spec_of(&self) -> FileType {
        file_type_spec(type_code_spec(self.block@))
    }

    fn to_file_type(&self) -> (r: FileType) {
        file_type_of(block_type_code(&self.block))
    }
}

fn copy_bytes(v: &Vec<u8>) -> (r: Vec<u8>)
    ensures
        r@ == v@,
{
    let r = v.clone();
    assert(r@ =~= v@);
    r
}

fn copy_opt_bytes(o: &Option<Vec<u8>>) -> (r: Option<Vec<u8>>)
    ensures
        bytes_view(r) == bytes_view(*o),
{
    match o {
        Some(v) => Some(copy_bytes(v)),
        None => None,
    }
}

fn device_or_absent(
    r: Result<Option<u32>, std::io::Error>,
    verbose: bool,
    warnings: &mut Vec<std::io::Error>,
) -> (d: Option<u64>)
    ensures
        forall|p: Option<Option<u32>>| agrees(r, p) ==> d == device_value(p),
        final(warnings)@.len() == old(warnings)@.len() + if verbose && r is Err { 1int } else { 0 },
{
    match r {
        Ok(Some(v)) => Some(v as u64),
        Ok(None) => None,
        Err(e) => {
            if verbose {
                warnings.push(e);
            }
            None
        },
    }
}

impl HeaderLike for RawEntry {
    open spec fn first_failure(&self) -> Option<HeaderField> {
        if parsed_entry_size(self.block@) is None {
            Some(HeaderField::EntrySize)
        } else if parsed_mode(self.block@) is None {
            Some(HeaderField::Mode)
        } else if parsed_uid(self.block@) is None {
            Some(HeaderField::Uid)
        } else if parsed_gid(self.block@) is None {
            Some(HeaderField::Gid)
        } else if parsed_mtime(self.block@) is None {
            Some(HeaderField::Mtime)
        } else {
            None
        }
    }

    open spec fn describes(&self, h: &Header) -> bool {
        let b = self.block@;
        &&& h.file_type == self.file_type_spec_of()
        &&& h.path_name@ == self.path@
        &&& bytes_view(h.link_name) == if h.file_type is Link || h.file_type is Symlink {
            bytes_view(self.link_name)
        } else {
            None
        }
        &&& h.size == self.size
        &&& Some(h.entry_size) == parsed_entry_size(b)
        &&& Some(h.mode as u32) == parsed_mode(b) && h.mode < 0x1_0000_0000
        &&& Some(h.uid) == parsed_uid(b)
        &&& Some(h.gid) == parsed_gid(b)
        &&& Some(h.modified) == parsed_mtime(b)
        &&& name_field(b, 265, bytes_view(h.uname))
        &&& name_field(b, 297, bytes_view(h.gname))
        &&& h.dev_major == device_value(parsed_device_major(b))
        &&& h.dev_minor == device_value(parsed_device_minor(b))
    }

    open spec fn recovered_failures(&self) -> nat {
        failed_count(parsed_device_major(self.block@)) + failed_count(
            parsed_device_minor(self.block@),
        )
    }

    fn to_header(&self, verbose: bool) -> (r: Result<Normalized, DecodeError>) {
        let entry_size: u64 = match block_entry_size(&self.block) {
            Ok(v) => v,
            Err(e) => {
                return Err(DecodeError { field: HeaderField::EntrySize, cause: e });
            },
        };
        let mode: u32 = match block_mode(&self.block) {
            Ok(v) => v,
            Err(e) => {
                return Err(DecodeError { field: HeaderField::Mode, cause: e });
            },
        };
        let uid: u64 = match block_uid(&self.block) {
            Ok(v) => v,
            Err(e) => {
                return Err(DecodeError { field: HeaderField::Uid, cause: e });
            },
        };
        let gid: u64 = match block_gid(&self.block) {
            Ok(v) => v,
            Err(e) => {
                return Err(DecodeError { field: HeaderField::Gid, cause: e });
            },
        };
        let modified: u64 = match block_mtime(&self.block) {
            Ok(v) => v,
            Err(e) => {
                return Err(DecodeError { field: HeaderField::Mtime, cause: e });
            },
        };
        let mut warnings: Vec<std::io::Error> = Vec::new();
        let dev_major = device_or_absent(block_device_major(&self.block), verbose, &mut warnings);
        let dev_minor = device_or_absent(block_device_minor(&self.block), verbose, &mut warnings);
        let file_type: FileType = self.to_file_type();
        let link_name: Option<Vec<u8>> = match file_type {
            FileType::Link | FileType::Symlink => copy_opt_bytes(&self.link_name),
            _ => None,
        };
        let header = Header {
            file_type,
            path_name: copy_bytes(&self.path),
            link_name,
            size: self.size,
            entry_size,
            mode: mode as u64,
            uid,
            gid,
            uname: block_username(&self.block),
            gname: block_groupname(&self.block),
            modified,
            dev_major,
            dev_minor,
        };
        Ok(Normalized { header, warnings })
    }
}

/// The state of a transcoding run.
#[derive(Debug, Clone, Copy, PartialEq, Eq, Structural)]
pub enum Phase {
    Reading,
    Finalized,
    Aborted,
}

/// What the caller does next with the output archive.
pub enum Action {
    /// Append the entry, its own header block first, then its body.
    Copy,
    /// Leave the entry out.
    Skip,
    /// Stop: the entry's header is corrupt and nothing after it can be read.
    Abort(DecodeError),
    /// Write the end-of-archive blocks and flush.
    Finalize,
}

/// An entry as the run sees it: its header block and its path.
pub open spec fn entry_view(e: &RawEntry) -> (Seq<u8>, Seq<u8>) {
    (e.block@, e.path@)
}

/// The entries of `s` that `cfg` keeps, in their order.
pub open spec fn kept_entries(cfg: SimpleFilter, s: Seq<(Seq<u8>, Seq<u8>)>) -> Seq<
    (Seq<u8>, Seq<u8>),
> {
    s.filter(|e: (Seq<u8>, Seq<u8>)| cfg.result_spec(e.1) == FilterResult::Keep)
}

/// Decides, entry by entry, what goes into the output archive.
pub struct Transcoder {
    filter: SimpleFilter,
    verbose: bool,
    phase: Phase,
    seen: Ghost<Seq<(Seq<u8>, Seq<u8>)>>,
    kept: Ghost<Seq<(Seq<u8>, Seq<u8>)>>,
}

impl Transcoder {
    pub closed spec fn config(&self) -> SimpleFilter {
        self.filter
    }

    pub closed spec fn phase_spec(&self) -> Phase {
        self.phase
    }

    /// The entries decoded so far, in order.
    pub closed spec fn seen(&self) -> Seq<(Seq<u8>, Seq<u8>)> {
        self.seen@
    }

    /// The entries handed out to be copied so far, in order.
    pub closed spec fn kept(&self) -> Seq<(Seq<u8>, Seq<u8>)> {
        self.kept@
    }

    pub closed spec fn is_verbose(&self) -> bool {
        self.verbose
    }

    pub open spec fn inv(&self) -> bool {
        self.kept() == kept_entries(self.config(), self.seen())
    }

    /// A run that has seen no entry yet.
    pub fn new(filter: SimpleFilter, verbose: bool) -> (t: Self)
        ensures
            t.inv(),
            t.config() == filter,
            t.is_verbose() == verbose,
            t.phase_spec() == Phase::Reading,
            t.seen() == Seq::<(Seq<u8>, Seq<u8>)>::empty(),
    {
        let t = Transcoder {
            filter,
            verbose,
            phase: Phase::Reading,
            seen: Ghost(Seq::empty()),
            kept: Ghost(Seq::empty()),
        };
        assert(kept_entries(t.filter, t.seen@) =~= Seq::empty());
        t
    }

    pub fn phase(&self) -> (r: Phase)
        ensures
            r == self.phase_spec(),
    {
        self.phase
    }

    /// Normalizes the next entry's header and decides whether it is copied.
    /// A header that does not decode aborts the run; the entries before it
    /// stay as they were decided. Returns the action and, in verbose mode,
    /// the recovered decode failures of the optional fields.
    pub fn step(&mut self, entry: &RawEntry) -> (r: (Action, Vec<std::io::Error>))
        requires
            old(self).inv(),
            old(self).phase_spec() == Phase::Reading,
        ensures
            final(self).inv(),
            final(self).config() == old(self).config(),
            final(self).is_verbose() == old(self).is_verbose(),
            entry.first_failure() is None ==> {
                &&& final(self).phase_spec() == Phase::Reading
                &&& final(self).seen() == old(self).seen().push(entry_view(entry))
                &&& r.0 == if old(self).config().result_spec(entry.path@) == FilterResult::Keep {
                    Action::Copy
                } else {
                    Action::Skip
                }
                &&& r.1@.len() == if old(self).is_verbose() {
                    entry.recovered_failures()
                } else {
                    0
                }
            },
            entry.first_failure() is Some ==> {
                &&& final(self).phase_spec() == Phase::Aborted
                &&& final(self).seen() == old(self).seen()
                &&& r.0 matches Action::Abort(e) && entry.first_failure() == Some(e.field)
                &&& r.1@.len() == 0
            },
    {
        match entry.to_header(self.verbose) {
            Err(e) => {
                self.phase = Phase::Aborted;
                (Action::Abort(e), Vec::new())
            },
            Ok(n) => {
                let fres: FilterResult = self.filter.path_result(n.header.path_name.as_slice());
                let ghost e = entry_view(entry);
                let ghost old_seen = self.seen@;
                let ghost cfg = self.filter;
                proof {
                    assert(old_seen.push(e).drop_last() =~= old_seen);
                    reveal_with_fuel(Seq::filter, 1);
                }
                self.seen = Ghost(self.seen@.push(e));
                if FilterResult::Keep == fres {
                    self.kept = Ghost(self.kept@.push(e));
                    (Action::Copy, n.warnings)
                } else {
                    (Action::Skip, n.warnings)
                }
            },
        }
    }

    /// Ends a run that read every entry: the output is to be finalized.
    pub fn finish(&mut self) -> (r: Action)
        requires
            old(self).inv(),
            old(self).phase_spec() == Phase::Reading,
        ensures
            final(self).inv(),
            final(self).phase_spec() == Phase::Finalized,
            final(self).config() == old(self).config(),
            final(self).seen() == old(self).seen(),
            r == Action::Finalize,
    {
        self.phase = Phase::Finalized;
        Action::Finalize
    }
}

/// A run that keeps everything hands every entry, header block and path
/// unchanged, to be copied, in the order read.
pub proof fn lemma_keep_all_round_trip(s: Seq<(Seq<u8>, Seq<u8>)>)
    ensures
        kept_entries(SimpleFilter::KeepAll, s) == s,
    decreases s.len(),
{
    reveal_with_fuel(Seq::filter, 1);
    if s.len() > 0 {
        lemma_keep_all_round_trip(s.drop_last());
        assert(s.drop_last().push(s.last()) =~= s);
    } else {
        assert(kept_entries(SimpleFilter::KeepAll, s) =~= s);
    }
}

/// Filtering the kept entries again with the same filter removes nothing more.
pub proof fn lemma_filter_idempotent(cfg: SimpleFilter, s: Seq<(Seq<u8>, Seq<u8>)>)
    ensures
        kept_entries(cfg, kept_entries(cfg, s)) == kept_entries(cfg, s),
    decreases s.len(),
{
    reveal_with_fuel(Seq::filter, 1);
    let k = kept_entries(cfg, s);
    if s.len() > 0 {
        let init = s.drop_last();
        lemma_filter_idempotent(cfg, init);
        let ki = kept_entries(cfg, init);
        if cfg.result_spec(s.last().1) == FilterResult::Keep {
            assert(k == ki.push(s.last()));
            assert(k.drop_last() =~= ki);
        } else {
            assert(k == ki);
        }
    } else {
        assert(k =~= s);
        assert(kept_entries(cfg, k) =~= k);
    }
}

/// A device number that fails to decode leaves the entry decodable, and the
/// number is absent from its normalized header.
pub proof fn lemma_device_failure_recovered(e: &RawEntry, h: &Header)
    requires
        parsed_entry_size(e.block@) is Some,
        parsed_mode(e.block@) is Some,
        parsed_uid(e.block@) is Some,
        parsed_gid(e.block@) is Some,
        parsed_mtime(e.block@) is Some,
        e.describes(h),
    ensures
        e.first_failure() is None,
        parsed_device_major(e.block@) is None ==> h.dev_major is None,
        parsed_device_minor(e.block@) is None ==> h.dev_minor is None,
{
}

} // verus!
