//! The zero-copy terminfo view: a borrowed window onto a compiled
//! `terminfo(5)` file.
//!
//! Every fact about a view is stated over the raw file bytes.  The spec
//! functions in this module decode the six-word header, locate each section
//! and define what every lookup returns, so that `parse` can promise exactly
//! which buffers it accepts and the lookups can promise exactly which bytes
//! they read.

use vstd::prelude::*;

use crate::terminfo::errors::ErrorKind;
use crate::terminfo::fields::BooleanField;
use crate::terminfo::fields::NumericField;
use crate::terminfo::fields::StringField;
use crate::terminfo::strtab::spec_table_get;
use crate::terminfo::strtab::StrTable;
use crate::terminfo::strtab::StringTable;
use vstd::slice::slice_subrange;
use vstd::string::StringSliceAdditionalSpecFns;
use vstd::slice::slice_to_vec;
use crate::util::read_le_u16;
use crate::util::spec_strlen;
use crate::util::strlen;

verus! {

/// The little-endian 16-bit word at byte offset `off`, as a plain integer.
pub open spec fn spec_word_at(b: Seq<u8>, off: int) -> int {
    b[off] + 256 * b[off + 1]
}

/// The `i`-th word of the six-word header.
pub open spec fn spec_header_word(b: Seq<u8>, i: int) -> int {
    spec_word_at(b, 2 * i)
}

/// The declared length of the names section, terminator included.
pub open spec fn spec_names_size(b: Seq<u8>) -> int {
    spec_header_word(b, 1)
}

/// The declared number of boolean capabilities.
pub open spec fn spec_bools_count(b: Seq<u8>) -> int {
    spec_header_word(b, 2)
}

/// The declared number of numeric capabilities.
pub open spec fn spec_numbers_count(b: Seq<u8>) -> int {
    spec_header_word(b, 3)
}

/// The declared number of string capabilities.
pub open spec fn spec_strings_count(b: Seq<u8>) -> int {
    spec_header_word(b, 4)
}

/// The declared byte length of the string table.
pub open spec fn spec_strtab_size(b: Seq<u8>) -> int {
    spec_header_word(b, 5)
}

/// Where the boolean section starts.
pub open spec fn spec_bools_off(b: Seq<u8>) -> int {
    12 + spec_names_size(b)
}

/// Where the numbers section starts: the booleans, plus one alignment byte
/// when the names and booleans together end on an odd offset.
pub open spec fn spec_numbers_off(b: Seq<u8>) -> int {
    spec_bools_off(b) + spec_bools_count(b) + (spec_names_size(b) + spec_bools_count(b)) % 2
}

/// Where the string-offset section starts.
pub open spec fn spec_strings_off(b: Seq<u8>) -> int {
    spec_numbers_off(b) + 2 * spec_numbers_count(b)
}

/// Where the string table starts.
pub open spec fn spec_strtab_off(b: Seq<u8>) -> int {
    spec_strings_off(b) + 2 * spec_strings_count(b)
}

/// One past the last byte of the base sections.
pub open spec fn spec_base_end(b: Seq<u8>) -> int {
    spec_strtab_off(b) + spec_strtab_size(b)
}

/// Where an extended section would start: the base sections, plus one
/// alignment byte when the string table has odd length.
pub open spec fn spec_ext_start(b: Seq<u8>) -> int {
    spec_base_end(b) + spec_strtab_size(b) % 2
}

/// True when the file carries an extended section: bytes remain past the
/// base sections and their alignment byte.
pub open spec fn spec_has_ext(b: Seq<u8>) -> bool {
    spec_ext_start(b) < b.len()
}

/// The declared number of extended boolean capabilities.
pub open spec fn spec_ext_bools_count(b: Seq<u8>) -> int {
    spec_word_at(b, spec_ext_start(b))
}

/// The declared number of extended numeric capabilities.
pub open spec fn spec_ext_numbers_count(b: Seq<u8>) -> int {
    spec_word_at(b, spec_ext_start(b) + 2)
}

/// The declared number of extended string capabilities.
pub open spec fn spec_ext_strings_count(b: Seq<u8>) -> int {
    spec_word_at(b, spec_ext_start(b) + 4)
}

/// The declared byte length of the extended string table, capability names
/// included.
pub open spec fn spec_ext_strtab_size(b: Seq<u8>) -> int {
    spec_word_at(b, spec_ext_start(b) + 8)
}

/// How many extended capabilities there are in all, and hence how many
/// entries the extended name-offset array holds.
pub open spec fn spec_ext_names_count(b: Seq<u8>) -> int {
    spec_ext_bools_count(b) + spec_ext_numbers_count(b) + spec_ext_strings_count(b)
}

/// Where the extended boolean section starts.
pub open spec fn spec_ext_bools_off(b: Seq<u8>) -> int {
    spec_ext_start(b) + 10
}

/// Where the extended numbers section starts: the extended booleans, plus
/// one alignment byte when there is an odd number of them.
pub open spec fn spec_ext_numbers_off(b: Seq<u8>) -> int {
    spec_ext_bools_off(b) + spec_ext_bools_count(b) + spec_ext_bools_count(b) % 2
}

/// Where the extended string-offset section starts.
pub open spec fn spec_ext_strings_off(b: Seq<u8>) -> int {
    spec_ext_numbers_off(b) + 2 * spec_ext_numbers_count(b)
}

/// Where the extended name-offset section starts.
pub open spec fn spec_ext_names_off(b: Seq<u8>) -> int {
    spec_ext_strings_off(b) + 2 * spec_ext_strings_count(b)
}

/// Where the extended string table starts.
pub open spec fn spec_ext_strtab_off(b: Seq<u8>) -> int {
    spec_ext_names_off(b) + 2 * spec_ext_names_count(b)
}

/// One past the last byte of the extended sections.
pub open spec fn spec_ext_end(b: Seq<u8>) -> int {
    spec_ext_strtab_off(b) + spec_ext_strtab_size(b)
}

/// The extended string table: value strings first, capability names after
/// them.
pub open spec fn spec_ext_table(b: Seq<u8>) -> Seq<u8> {
    b.subrange(spec_ext_strtab_off(b), spec_ext_end(b))
}

/// The backward scan that finds where the capability names start inside the
/// extended string table: starting from position `i` and counting down,
/// stop just past the `x`-th NUL from the end.
pub open spec fn spec_scan_back(t: Seq<u8>, x: int, i: int) -> int
    decreases i,
{
    if i <= 0 {
        0
    } else if t[i - 1] == 0 && x == 1 {
        i
    } else if t[i - 1] == 0 {
        spec_scan_back(t, x - 1, i - 1)
    } else {
        spec_scan_back(t, x, i - 1)
    }
}

/// Where the capability names start inside the extended string table: one
/// past the NUL that terminates the last value string, found by scanning
/// backward over one NUL per capability name plus that terminator.
pub open spec fn spec_nametab_start(b: Seq<u8>) -> int {
    spec_scan_back(spec_ext_table(b), spec_ext_names_count(b) + 1, spec_ext_table(b).len() as int)
}

/// True when the buffer parses: it holds a complete header with the right
/// magic, its base sections fit, and an extended section, if bytes remain
/// for one, has a complete header and fits too.
pub open spec fn spec_parse_ok(b: Seq<u8>) -> bool {
    &&& b.len() >= 12
    &&& spec_header_word(b, 0) == 0o432
    &&& spec_names_size(b) >= 1
    &&& spec_base_end(b) <= b.len()
    &&& (spec_has_ext(b) ==> {
        &&& b.len() - spec_ext_start(b) >= 10
        &&& spec_ext_end(b) <= b.len()
    })
}

/// The error a buffer that does not parse is reported with: the first
/// failing check in parsing order.
pub open spec fn spec_parse_err(b: Seq<u8>) -> ErrorKind {
    if b.len() < 12 {
        ErrorKind::IncompleteTermInfoHeader
    } else if spec_header_word(b, 0) != 0o432 {
        ErrorKind::InvalidMagicNumber
    } else if spec_names_size(b) < 1 || spec_base_end(b) > b.len() {
        ErrorKind::IncompleteTermInfo
    } else if b.len() - spec_ext_start(b) < 10 {
        ErrorKind::IncompleteExtendedHeader
    } else {
        ErrorKind::IncompleteExtendedTermInfo
    }
}

/// What `boolean` returns: the section byte is present and non-zero.
pub open spec fn spec_view_boolean(b: Seq<u8>, i: int) -> bool {
    0 <= i < spec_bools_count(b) && b[spec_bools_off(b) + i] != 0
}

/// What `number` returns: the section word, unless it is absent or out of
/// range.
pub open spec fn spec_view_number(b: Seq<u8>, i: int) -> Option<u16> {
    if 0 <= i < spec_numbers_count(b) && spec_word_at(b, spec_numbers_off(b) + 2 * i) != 0xFFFF {
        Some(spec_word_at(b, spec_numbers_off(b) + 2 * i) as u16)
    } else {
        None
    }
}

/// The base string table.
pub open spec fn spec_strtab(b: Seq<u8>) -> Seq<u8> {
    b.subrange(spec_strtab_off(b), spec_base_end(b))
}

/// What `string` returns: the NUL-terminated entry the section word points
/// at, unless the word is absent, out of range, or past the table.
pub open spec fn spec_view_string(b: Seq<u8>, i: int) -> Option<Seq<u8>> {
    if 0 <= i < spec_strings_count(b) {
        let off = spec_word_at(b, spec_strings_off(b) + 2 * i);
        if off != 0xFFFF && off <= spec_strtab_size(b) {
            Some(spec_table_get(spec_strtab(b), off))
        } else {
            None
        }
    } else {
        None
    }
}

/// The name bytes: the names section without its NUL terminator.
pub open spec fn spec_names_bytes(b: Seq<u8>) -> Seq<u8> {
    b.subrange(12, 12 + spec_names_size(b) - 1)
}

/// `s` split at every `|` byte.
pub open spec fn spec_split_names(s: Seq<u8>) -> Seq<Seq<u8>>
    decreases s.len(),
    via spec_split_names_decreases
{
    let cut = spec_strlen_sep(s);
    if cut == s.len() {
        seq![s]
    } else {
        seq![s.subrange(0, cut as int)] + spec_split_names(s.subrange((cut + 1) as int, s.len() as int))
    }
}

#[via_fn]
proof fn spec_split_names_decreases(s: Seq<u8>) {
    lemma_strlen_sep_bound(s);
}

/// The index of the first `|` byte of `s`, or `s.len()` when `s` holds none.
pub open spec fn spec_strlen_sep(s: Seq<u8>) -> nat
    decreases s.len(),
{
    if s.len() == 0 {
        0
    } else if s[0] == 124 {
        0
    } else {
        1 + spec_strlen_sep(s.drop_first())
    }
}

/// `spec_strlen_sep` never passes the end of the sequence.
pub proof fn lemma_strlen_sep_bound(s: Seq<u8>)
    ensures
        spec_strlen_sep(s) <= s.len(),
    decreases s.len(),
{
    if s.len() != 0 && s[0] != 124 {
        lemma_strlen_sep_bound(s.drop_first());
    }
}

/// Any index with the first-separator properties is `spec_strlen_sep`.
pub proof fn lemma_strlen_sep_unique(s: Seq<u8>, r: int)
    requires
        0 <= r <= s.len(),
        forall|j: int| 0 <= j < r ==> s[j] != 124,
        r < s.len() ==> s[r] == 124,
    ensures
        r == spec_strlen_sep(s),
    decreases s.len(),
{
    if s.len() != 0 && s[0] != 124 {
        assert(r >= 1);
        lemma_strlen_sep_unique(s.drop_first(), r - 1);
    }
}

/// The backward scan never leaves the table.
pub proof fn lemma_scan_back_bound(t: Seq<u8>, x: int, i: int)
    ensures
        0 <= spec_scan_back(t, x, i),
        spec_scan_back(t, x, i) <= i || i < 0,
    decreases i,
{
    if i > 0 {
        if t[i - 1] == 0 && x == 1 {
        } else if t[i - 1] == 0 {
            lemma_scan_back_bound(t, x - 1, i - 1);
        } else {
            lemma_scan_back_bound(t, x, i - 1);
        }
    }
}

/// The `j`-th extended capability name: the NUL-terminated entry of the
/// name region its offset word points at, or nothing when the offset runs
/// past the table.
pub open spec fn spec_ext_name(b: Seq<u8>, j: int) -> Seq<u8> {
    let t = spec_ext_table(b);
    let off = spec_word_at(b, spec_ext_names_off(b) + 2 * j) + spec_nametab_start(b);
    if off <= t.len() {
        spec_table_get(t, off)
    } else {
        Seq::empty()
    }
}

/// What `ext_index` returns: the first position in the name-offset array
/// whose name equals `name`, scanning from `j` on.
pub open spec fn spec_ext_index_from(b: Seq<u8>, name: Seq<u8>, j: int) -> Option<int>
    decreases spec_ext_names_count(b) - j,
{
    if j < 0 || j >= spec_ext_names_count(b) {
        None
    } else if spec_ext_name(b, j) == name {
        Some(j)
    } else {
        spec_ext_index_from(b, name, j + 1)
    }
}

/// The first extended capability with the given name, if the file has an
/// extended section at all.
pub open spec fn spec_ext_index(b: Seq<u8>, name: Seq<u8>) -> Option<int> {
    if spec_has_ext(b) {
        spec_ext_index_from(b, name, 0)
    } else {
        None
    }
}

/// What `ext_boolean` returns: the named capability exists, falls in the
/// boolean part of the name array, and its byte is non-zero.
pub open spec fn spec_view_ext_boolean(b: Seq<u8>, name: Seq<u8>) -> bool {
    match spec_ext_index(b, name) {
        Some(j) => j < spec_ext_bools_count(b) && b[spec_ext_bools_off(b) + j] != 0,
        None => false,
    }
}

/// What `ext_number` returns: the named capability exists, falls in the
/// numeric part of the name array, and its word is not the absent sentinel.
pub open spec fn spec_view_ext_number(b: Seq<u8>, name: Seq<u8>) -> Option<u16> {
    match spec_ext_index(b, name) {
        Some(j) => {
            let k = j - spec_ext_bools_count(b);
            if 0 <= k < spec_ext_numbers_count(b) && spec_word_at(
                b,
                spec_ext_numbers_off(b) + 2 * k,
            ) != 0xFFFF {
                Some(spec_word_at(b, spec_ext_numbers_off(b) + 2 * k) as u16)
            } else {
                None
            }
        },
        None => None,
    }
}

/// What `ext_string` returns: the named capability exists, falls in the
/// string part of the name array, and its offset word points into the value
/// part of the extended string table.
pub open spec fn spec_view_ext_string(b: Seq<u8>, name: Seq<u8>) -> Option<Seq<u8>> {
    match spec_ext_index(b, name) {
        Some(j) => {
            let k = j - spec_ext_bools_count(b) - spec_ext_numbers_count(b);
            if 0 <= k < spec_ext_strings_count(b) {
                let off = spec_word_at(b, spec_ext_strings_off(b) + 2 * k);
                if off != 0xFFFF && off <= spec_ext_table(b).len() {
                    Some(spec_table_get(spec_ext_table(b), off))
                } else {
                    None
                }
            } else {
                None
            }
        },
        None => None,
    }
}


/// The boolean section as a sequence of flags.
pub open spec fn spec_bools_seq(b: Seq<u8>) -> Seq<bool> {
    Seq::new(spec_bools_count(b) as nat, |i: int| b[spec_bools_off(b) + i] != 0)
}

/// The numeric section as a sequence of 32-bit words; the absent sentinel
/// stays `0xFFFF`.
pub open spec fn spec_numbers_seq(b: Seq<u8>) -> Seq<u32> {
    Seq::new(spec_numbers_count(b) as nat, |i: int| spec_word_at(b, spec_numbers_off(b) + 2 * i) as u32)
}

/// The string-offset section as a sequence of 16-bit words.
pub open spec fn spec_string_offsets_seq(b: Seq<u8>) -> Seq<u16> {
    Seq::new(spec_strings_count(b) as nat, |i: int| spec_word_at(b, spec_strings_off(b) + 2 * i) as u16)
}

/// The extended boolean section as a sequence of flags.
pub open spec fn spec_ext_bools_seq(b: Seq<u8>) -> Seq<bool> {
    Seq::new(spec_ext_bools_count(b) as nat, |i: int| b[spec_ext_bools_off(b) + i] != 0)
}

/// The extended numeric section as a sequence of 32-bit words.
pub open spec fn spec_ext_numbers_seq(b: Seq<u8>) -> Seq<u32> {
    Seq::new(
        spec_ext_numbers_count(b) as nat,
        |i: int| spec_word_at(b, spec_ext_numbers_off(b) + 2 * i) as u32,
    )
}

/// The extended string-offset section as a sequence of 16-bit words.
pub open spec fn spec_ext_string_offsets_seq(b: Seq<u8>) -> Seq<u16> {
    Seq::new(
        spec_ext_strings_count(b) as nat,
        |i: int| spec_word_at(b, spec_ext_strings_off(b) + 2 * i) as u16,
    )
}

/// The extended name-offset section as a sequence of 16-bit words.
pub open spec fn spec_ext_name_offsets_seq(b: Seq<u8>) -> Seq<u16> {
    Seq::new(
        spec_ext_names_count(b) as nat,
        |i: int| spec_word_at(b, spec_ext_names_off(b) + 2 * i) as u16,
    )
}

/// The value half of the extended string table.
pub open spec fn spec_ext_value_table(b: Seq<u8>) -> Seq<u8> {
    spec_ext_table(b).subrange(0, spec_nametab_start(b))
}

/// The name half of the extended string table.
pub open spec fn spec_ext_name_table(b: Seq<u8>) -> Seq<u8> {
    spec_ext_table(b).subrange(spec_nametab_start(b), spec_ext_table(b).len() as int)
}

/// Immutable terminfo data: a view borrowed from a compiled terminfo
/// buffer, which must outlive it.
///
/// A view is cheap: parsing records nothing but where the capability names
/// of the extended section start.  To mutate the data, copy it out with
/// `TermInfoBuf::from_terminfo`.
#[derive(Debug, Clone)]
pub struct TermInfo<'a> {
    buf: &'a [u8],
    ext_nametab_start: Option<usize>,
}

impl<'a> View for TermInfo<'a> {
    type V = Seq<u8>;

    closed spec fn view(&self) -> Seq<u8> {
        self.buf@
    }
}

impl<'a> TermInfo<'a> {
    /// A parsed view is well formed: its buffer passed every parsing check
    /// and the cached name-table split is the one the scan defines.
    pub closed spec fn wf(self) -> bool {
        &&& spec_parse_ok(self.buf@)
        &&& self.ext_nametab_start is Some <==> spec_has_ext(self.buf@)
        &&& (self.ext_nametab_start matches Some(n) ==> n == spec_nametab_start(self.buf@))
    }

    /// Parse a terminfo file from a buffer.
    ///
    /// The buffer is accepted exactly when it holds the 16-bit magic
    /// `0o432`, a complete header, base sections that fit, and — whenever
    /// bytes remain past the base sections — a complete extended section.
    /// Each rejection names the first check that failed.
    pub fn parse(bytes: &'a [u8]) -> (r: Result<TermInfo<'a>, ErrorKind>)
        ensures
            match r {
                Ok(t) => spec_parse_ok(bytes@) && t.wf() && t@ == bytes@,
                Err(e) => !spec_parse_ok(bytes@) && e == spec_parse_err(bytes@),
            },
    {
        let file_size = bytes.len();
        if file_size < 12 {
            return Err(ErrorKind::IncompleteTermInfoHeader);
        }
        if read_le_u16(bytes, 0) != 0o432 {
            return Err(ErrorKind::InvalidMagicNumber);
        }
        let names_size = read_le_u16(bytes, 1) as usize;
        let bools_count = read_le_u16(bytes, 2) as usize;
        let numbers_count = read_le_u16(bytes, 3) as usize;
        let strings_count = read_le_u16(bytes, 4) as usize;
        let strtab_size = read_le_u16(bytes, 5) as usize;

        let base_end = 12 + names_size + bools_count + (names_size + bools_count) % 2 + 2
            * numbers_count + 2 * strings_count + strtab_size;
        if names_size < 1 || base_end > file_size {
            return Err(ErrorKind::IncompleteTermInfo);
        }
        let ext_start = base_end + strtab_size % 2;
        if ext_start >= file_size {
            return Ok(TermInfo { buf: bytes, ext_nametab_start: None });
        }
        if file_size - ext_start < 10 {
            return Err(ErrorKind::IncompleteExtendedHeader);
        }
        let eb = word_at(bytes, ext_start);
        let en = word_at(bytes, ext_start + 2);
        let es = word_at(bytes, ext_start + 4);
        let etab = word_at(bytes, ext_start + 8);
        let ext_end = ext_start + 10 + eb + eb % 2 + 2 * en + 2 * es + 2 * (eb + en + es) + etab;
        if ext_end > file_size {
            return Err(ErrorKind::IncompleteExtendedTermInfo);
        }
        let nametab_start = scan_back_nuls(bytes, ext_end - etab, etab, eb + en + es + 1);
        Ok(TermInfo { buf: bytes, ext_nametab_start: Some(nametab_start) })
    }

    /// The terminal's names: the `|`-separated entries of the names
    /// section, each copied out, the primary name first.
    pub fn names(&self) -> (r: Vec<Vec<u8>>)
        requires
            self.wf(),
        ensures
            r.deep_view() == spec_split_names(spec_names_bytes(self@)),
    {
        let ns = word_at(self.buf, 2);
        let nb = slice_subrange(self.buf, 12, 12 + ns - 1);
        let mut r: Vec<Vec<u8>> = Vec::new();
        let mut start: usize = 0;
        proof {
            assert(nb@.subrange(0, nb@.len() as int) =~= nb@);
            assert(r.deep_view() =~= Seq::<Seq<u8>>::empty());
            assert(r.deep_view() + spec_split_names(nb@) =~= spec_split_names(nb@));
            assert(r.deep_view() + spec_split_names(nb@.subrange(0, nb@.len() as int))
                == spec_split_names(nb@));
        }
        loop
            invariant
                0 <= start <= nb@.len(),
                nb@ == spec_names_bytes(self@),
                r.deep_view() + spec_split_names(nb@.subrange(start as int, nb@.len() as int))
                    == spec_split_names(nb@),
            decreases nb@.len() - start,
        {
            let mut j = start;
            while j < nb.len() && nb[j] != 124
                invariant
                    start <= j <= nb@.len(),
                    forall|k: int| start <= k < j ==> nb@[k] != 124,
                decreases nb@.len() - j,
            {
                j += 1;
            }
            let ghost suffix = nb@.subrange(start as int, nb@.len() as int);
            proof {
                assert forall|k: int| 0 <= k < j - start implies suffix[k] != 124 by {
                    assert(suffix[k] == nb@[start + k]);
                }
                if j < nb@.len() {
                    assert(suffix[j - start] == nb@[j as int]);
                }
                lemma_strlen_sep_unique(suffix, j - start);
            }
            let piece = slice_to_vec(slice_subrange(nb, start, j));
            proof {
                assert(piece@ =~= suffix.subrange(0, j - start));
            }
            let ghost r0 = r.deep_view();
            r.push(piece);
            proof {
                assert(r.deep_view() =~~= r0.push(suffix.subrange(0, j - start)));
            }
            if j == nb.len() {
                proof {
                    assert(suffix.subrange(0, j - start) =~= suffix);
                    assert(spec_split_names(suffix) == seq![suffix]);
                    assert(r.deep_view() =~~= r0 + spec_split_names(suffix));
                    assert(r.deep_view() == spec_split_names(nb@));
                }
                return r;
            }
            proof {
                let rest = suffix.subrange(j - start + 1, suffix.len() as int);
                assert(rest =~= nb@.subrange(j + 1, nb@.len() as int));
                assert(spec_split_names(suffix) == seq![suffix.subrange(0, j - start)]
                    + spec_split_names(rest));
                assert(r.deep_view() + spec_split_names(rest) =~~= r0 + spec_split_names(suffix));
            }
            start = j + 1;
        }
    }

    /// Get a boolean capability.
    ///
    /// An index beyond the section, which a short file simply does not
    /// store, reads as `false`; a boolean lookup cannot fail.
    pub fn boolean(&self, field: BooleanField) -> (r: bool)
        requires
            self.wf(),
        ensures
            r == spec_view_boolean(self@, field.ordinal()),
    {
        let i = field.index();
        let bc = word_at(self.buf, 4);
        if i < bc {
            let ns = word_at(self.buf, 2);
            self.buf[12 + ns + i] != 0
        } else {
            false
        }
    }

    /// Get a numeric capability.
    ///
    /// `None` exactly when the index is beyond the stored section or the
    /// stored word is the absent sentinel.
    pub fn number(&self, field: NumericField) -> (r: Option<u16>)
        requires
            self.wf(),
        ensures
            r == spec_view_number(self@, field.ordinal()),
    {
        let i = field.index();
        let nc = word_at(self.buf, 6);
        if i < nc {
            let ns = word_at(self.buf, 2);
            let bc = word_at(self.buf, 4);
            let raw = word_at(self.buf, 12 + ns + bc + (ns + bc) % 2 + 2 * i);
            if raw != 0xFFFF {
                Some(raw as u16)
            } else {
                None
            }
        } else {
            None
        }
    }

    /// Get a string capability, as the bytes stored in the string table.
    ///
    /// `None` exactly when the index is beyond the stored section, the
    /// offset word is the absent sentinel, or the offset points past the
    /// string table.
    pub fn string(&self, field: StringField) -> (r: Option<&'a [u8]>)
        requires
            self.wf(),
        ensures
            match r {
                Some(v) => spec_view_string(self@, field.ordinal()) == Some(v@),
                None => spec_view_string(self@, field.ordinal()) is None,
            },
    {
        let i = field.index();
        let sc = word_at(self.buf, 8);
        if i >= sc {
            return None;
        }
        let ns = word_at(self.buf, 2);
        let bc = word_at(self.buf, 4);
        let nc = word_at(self.buf, 6);
        let ts = word_at(self.buf, 10);
        let soff = 12 + ns + bc + (ns + bc) % 2 + 2 * nc;
        let w = word_at(self.buf, soff + 2 * i);
        if w == 0xFFFF || w > ts {
            return None;
        }
        let toff = soff + 2 * sc;
        let st = StrTable::new(slice_subrange(self.buf, toff, toff + ts));
        match st.get(w) {
            Ok(v) => Some(v),
            Err(_) => {
                proof {
                    assert(false);
                }
                None
            },
        }
    }

    /// Check if the file has an extensions section.
    ///
    /// When it does not, the `ext_*` lookups still cannot fail: they
    /// report `false` or `None` for every name.
    pub fn has_ext(&self) -> (r: bool)
        requires
            self.wf(),
        ensures
            r == spec_has_ext(self@),
    {
        self.ext_nametab_start.is_some()
    }

    /// The extended geometry: where the extended header starts and the
    /// four counts it declares.
    fn ext_geom(&self) -> (g: (usize, usize, usize, usize, usize))
        requires
            self.wf(),
            spec_has_ext(self@),
        ensures
            g.0 == spec_ext_start(self@),
            g.1 == spec_ext_bools_count(self@),
            g.2 == spec_ext_numbers_count(self@),
            g.3 == spec_ext_strings_count(self@),
            g.4 == spec_ext_strtab_size(self@),
            g.0 + 10 <= self@.len(),
    {
        let ns = word_at(self.buf, 2);
        let bc = word_at(self.buf, 4);
        let nc = word_at(self.buf, 6);
        let sc = word_at(self.buf, 8);
        let ts = word_at(self.buf, 10);
        let ext_start = 12 + ns + bc + (ns + bc) % 2 + 2 * nc + 2 * sc + ts + ts % 2;
        let eb = word_at(self.buf, ext_start);
        let en = word_at(self.buf, ext_start + 2);
        let es = word_at(self.buf, ext_start + 4);
        let etab = word_at(self.buf, ext_start + 8);
        (ext_start, eb, en, es, etab)
    }

    /// The position of the first extended capability with the given name,
    /// scanning the name-offset array in order.
    fn ext_index_bytes(&self, name: &[u8]) -> (r: Option<usize>)
        requires
            self.wf(),
        ensures
            match r {
                Some(j) => spec_ext_index(self@, name@) == Some(j as int),
                None => spec_ext_index(self@, name@) is None,
            },
    {
        let nts = match self.ext_nametab_start {
            Some(n) => n,
            None => {
                return None;
            },
        };
        let (ext_start, eb, en, es, etab) = self.ext_geom();
        let ecount = eb + en + es;
        let names_off = ext_start + 10 + eb + eb % 2 + 2 * en + 2 * es;
        let tab_off = names_off + 2 * ecount;
        let st = StrTable::new(slice_subrange(self.buf, tab_off, tab_off + etab));
        proof {
            lemma_scan_back_bound(
                spec_ext_table(self@),
                spec_ext_names_count(self@) + 1,
                spec_ext_table(self@).len() as int,
            );
        }
        let mut j: usize = 0;
        while j < ecount
            invariant
                self.wf(),
                spec_has_ext(self@),
                0 <= j <= ecount,
                nts == spec_nametab_start(self@),
                ecount == spec_ext_names_count(self@),
                names_off == spec_ext_names_off(self@),
                tab_off == spec_ext_strtab_off(self@),
                etab == spec_ext_strtab_size(self@),
                st@ == spec_ext_table(self@),
                etab < 0x10000,
                nts <= etab,
                spec_ext_index(self@, name@) == spec_ext_index_from(self@, name@, j as int),
            decreases ecount - j,
        {
            let w = word_at(self.buf, names_off + 2 * j);
            let entry = match st.get(w + nts) {
                Ok(e) => e,
                Err(_) => slice_subrange(name, 0, 0),
            };
            proof {
                assert(entry@ =~= spec_ext_name(self@, j as int));
            }
            if eq_bytes(entry, name) {
                return Some(j);
            }
            proof {
                assert(spec_ext_index_from(self@, name@, j as int) == spec_ext_index_from(
                    self@,
                    name@,
                    j + 1,
                ));
            }
            j += 1;
        }
        None
    }

    /// Look a boolean capability up by name in the extended section.
    ///
    /// `false` exactly when the name is missing, names a capability of
    /// another type, or stores a zero byte.
    pub fn ext_boolean(&self, name: &str) -> (r: bool)
        requires
            self.wf(),
        ensures
            r == spec_view_ext_boolean(self@, name.spec_bytes()),
    {
        match self.ext_index_bytes(name.as_bytes()) {
            Some(j) => {
                let (ext_start, eb, _, _, _) = self.ext_geom();
                j < eb && self.buf[ext_start + 10 + j] != 0
            },
            None => false,
        }
    }

    /// Look a numeric capability up by name in the extended section.
    pub fn ext_number(&self, name: &str) -> (r: Option<u16>)
        requires
            self.wf(),
        ensures
            r == spec_view_ext_number(self@, name.spec_bytes()),
    {
        match self.ext_index_bytes(name.as_bytes()) {
            Some(j) => {
                let (ext_start, eb, en, _, _) = self.ext_geom();
                if j >= eb && j - eb < en {
                    let raw = word_at(self.buf, ext_start + 10 + eb + eb % 2 + 2 * (j - eb));
                    if raw != 0xFFFF {
                        Some(raw as u16)
                    } else {
                        None
                    }
                } else {
                    None
                }
            },
            None => None,
        }
    }


    /// The boolean section, copied out.
    pub(crate) fn get_bools(&self) -> (r: Vec<bool>)
        requires
            self.wf(),
        ensures
            r@ == spec_bools_seq(self@),
    {
        let ns = word_at(self.buf, 2);
        let bc = word_at(self.buf, 4);
        let mut r: Vec<bool> = Vec::new();
        let mut i: usize = 0;
        while i < bc
            invariant
                self.wf(),
                0 <= i <= bc,
                ns == spec_names_size(self@),
                bc == spec_bools_count(self@),
                r@ =~= spec_bools_seq(self@).subrange(0, i as int),
            decreases bc - i,
        {
            r.push(self.buf[12 + ns + i] != 0);
            proof {
                assert(r@ =~= spec_bools_seq(self@).subrange(0, i + 1));
            }
            i += 1;
        }
        proof {
            assert(r@ =~= spec_bools_seq(self@));
        }
        r
    }

    /// The numeric section, copied out and widened to 32 bits; the absent
    /// sentinel stays `0xFFFF`.
    pub(crate) fn get_numbers(&self) -> (r: Vec<u32>)
        requires
            self.wf(),
        ensures
            r@ == spec_numbers_seq(self@),
    {
        let ns = word_at(self.buf, 2);
        let bc = word_at(self.buf, 4);
        let nc = word_at(self.buf, 6);
        let noff = 12 + ns + bc + (ns + bc) % 2;
        let mut r: Vec<u32> = Vec::new();
        let mut i: usize = 0;
        while i < nc
            invariant
                self.wf(),
                0 <= i <= nc,
                nc == spec_numbers_count(self@),
                noff == spec_numbers_off(self@),
                r@ =~= spec_numbers_seq(self@).subrange(0, i as int),
            decreases nc - i,
        {
            r.push(word_at(self.buf, noff + 2 * i) as u32);
            proof {
                assert(r@ =~= spec_numbers_seq(self@).subrange(0, i + 1));
            }
            i += 1;
        }
        proof {
            assert(r@ =~= spec_numbers_seq(self@));
        }
        r
    }

    /// The string-offset section, copied out.
    pub(crate) fn get_string_offsets(&self) -> (r: Vec<u16>)
        requires
            self.wf(),
        ensures
            r@ == spec_string_offsets_seq(self@),
    {
        let ns = word_at(self.buf, 2);
        let bc = word_at(self.buf, 4);
        let nc = word_at(self.buf, 6);
        let sc = word_at(self.buf, 8);
        let soff = 12 + ns + bc + (ns + bc) % 2 + 2 * nc;
        let mut r: Vec<u16> = Vec::new();
        let mut i: usize = 0;
        while i < sc
            invariant
                self.wf(),
                0 <= i <= sc,
                sc == spec_strings_count(self@),
                soff == spec_strings_off(self@),
                r@ =~= spec_string_offsets_seq(self@).subrange(0, i as int),
            decreases sc - i,
        {
            r.push(word_at(self.buf, soff + 2 * i) as u16);
            proof {
                assert(r@ =~= spec_string_offsets_seq(self@).subrange(0, i + 1));
            }
            i += 1;
        }
        proof {
            assert(r@ =~= spec_string_offsets_seq(self@));
        }
        r
    }

    /// The base string table, copied out.
    pub(crate) fn get_strtab(&self) -> (r: StringTable)
        requires
            self.wf(),
        ensures
            r@ == spec_strtab(self@),
    {
        let ns = word_at(self.buf, 2);
        let bc = word_at(self.buf, 4);
        let nc = word_at(self.buf, 6);
        let sc = word_at(self.buf, 8);
        let ts = word_at(self.buf, 10);
        let toff = 12 + ns + bc + (ns + bc) % 2 + 2 * nc + 2 * sc;
        StringTable::from_slice(slice_subrange(self.buf, toff, toff + ts))
    }

    /// The extended boolean section, copied out.
    pub(crate) fn get_ext_bools(&self) -> (r: Vec<bool>)
        requires
            self.wf(),
            spec_has_ext(self@),
        ensures
            r@ == spec_ext_bools_seq(self@),
    {
        let (ext_start, eb, _, _, _) = self.ext_geom();
        let mut r: Vec<bool> = Vec::new();
        let mut i: usize = 0;
        while i < eb
            invariant
                self.wf(),
                spec_has_ext(self@),
                0 <= i <= eb,
                eb == spec_ext_bools_count(self@),
                ext_start == spec_ext_start(self@),
                r@ =~= spec_ext_bools_seq(self@).subrange(0, i as int),
            decreases eb - i,
        {
            r.push(self.buf[ext_start + 10 + i] != 0);
            proof {
                assert(r@ =~= spec_ext_bools_seq(self@).subrange(0, i + 1));
            }
            i += 1;
        }
        proof {
            assert(r@ =~= spec_ext_bools_seq(self@));
        }
        r
    }

    /// The extended numeric section, copied out and widened to 32 bits.
    pub(crate) fn get_ext_numbers(&self) -> (r: Vec<u32>)
        requires
            self.wf(),
            spec_has_ext(self@),
        ensures
            r@ == spec_ext_numbers_seq(self@),
    {
        let (ext_start, eb, en, _, _) = self.ext_geom();
        let noff = ext_start + 10 + eb + eb % 2;
        let mut r: Vec<u32> = Vec::new();
        let mut i: usize = 0;
        while i < en
            invariant
                self.wf(),
                spec_has_ext(self@),
                0 <= i <= en,
                en == spec_ext_numbers_count(self@),
                noff == spec_ext_numbers_off(self@),
                r@ =~= spec_ext_numbers_seq(self@).subrange(0, i as int),
            decreases en - i,
        {
            r.push(word_at(self.buf, noff + 2 * i) as u32);
            proof {
                assert(r@ =~= spec_ext_numbers_seq(self@).subrange(0, i + 1));
            }
            i += 1;
        }
        proof {
            assert(r@ =~= spec_ext_numbers_seq(self@));
        }
        r
    }

    /// The extended string-offset section, copied out.
    pub(crate) fn get_ext_string_offsets(&self) -> (r: Vec<u16>)
        requires
            self.wf(),
            spec_has_ext(self@),
        ensures
            r@ == spec_ext_string_offsets_seq(self@),
    {
        let (ext_start, eb, en, es, _) = self.ext_geom();
        let soff = ext_start + 10 + eb + eb % 2 + 2 * en;
        let mut r: Vec<u16> = Vec::new();
        let mut i: usize = 0;
        while i < es
            invariant
                self.wf(),
                spec_has_ext(self@),
                0 <= i <= es,
                es == spec_ext_strings_count(self@),
                soff == spec_ext_strings_off(self@),
                r@ =~= spec_ext_string_offsets_seq(self@).subrange(0, i as int),
            decreases es - i,
        {
            r.push(word_at(self.buf, soff + 2 * i) as u16);
            proof {
                assert(r@ =~= spec_ext_string_offsets_seq(self@).subrange(0, i + 1));
            }
            i += 1;
        }
        proof {
            assert(r@ =~= spec_ext_string_offsets_seq(self@));
        }
        r
    }

    /// The extended name-offset section, copied out.
    pub(crate) fn get_ext_name_offsets(&self) -> (r: Vec<u16>)
        requires
            self.wf(),
            spec_has_ext(self@),
        ensures
            r@ == spec_ext_name_offsets_seq(self@),
    {
        let (ext_start, eb, en, es, _) = self.ext_geom();
        let ecount = eb + en + es;
        let noff = ext_start + 10 + eb + eb % 2 + 2 * en + 2 * es;
        let mut r: Vec<u16> = Vec::new();
        let mut i: usize = 0;
        while i < ecount
            invariant
                self.wf(),
                spec_has_ext(self@),
                0 <= i <= ecount,
                ecount == spec_ext_names_count(self@),
                noff == spec_ext_names_off(self@),
                r@ =~= spec_ext_name_offsets_seq(self@).subrange(0, i as int),
            decreases ecount - i,
        {
            r.push(word_at(self.buf, noff + 2 * i) as u16);
            proof {
                assert(r@ =~= spec_ext_name_offsets_seq(self@).subrange(0, i + 1));
            }
            i += 1;
        }
        proof {
            assert(r@ =~= spec_ext_name_offsets_seq(self@));
        }
        r
    }

    /// The two halves of the extended string table, copied out: the value
    /// strings, then the capability names.
    pub(crate) fn get_ext_tables(&self) -> (r: (StringTable, StringTable))
        requires
            self.wf(),
            spec_has_ext(self@),
        ensures
            r.0@ == spec_ext_value_table(self@),
            r.1@ == spec_ext_name_table(self@),
    {
        let nts = match self.ext_nametab_start {
            Some(n) => n,
            None => {
                proof {
                    assert(false);
                }
                0
            },
        };
        let (ext_start, eb, en, es, etab) = self.ext_geom();
        let tab_off = ext_start + 10 + eb + eb % 2 + 2 * en + 2 * es + 2 * (eb + en + es);
        proof {
            lemma_scan_back_bound(
                spec_ext_table(self@),
                spec_ext_names_count(self@) + 1,
                spec_ext_table(self@).len() as int,
            );
        }
        let st = StrTable::new(slice_subrange(self.buf, tab_off, tab_off + etab));
        st.split(nts)
    }

    /// Look a string capability up by name in the extended section.
    pub fn ext_string(&self, name: &str) -> (r: Option<&'a [u8]>)
        requires
            self.wf(),
        ensures
            match r {
                Some(v) => spec_view_ext_string(self@, name.spec_bytes()) == Some(v@),
                None => spec_view_ext_string(self@, name.spec_bytes()) is None,
            },
    {
        match self.ext_index_bytes(name.as_bytes()) {
            Some(j) => {
                let (ext_start, eb, en, es, etab) = self.ext_geom();
                if j >= eb + en && j - eb - en < es {
                    let k = j - eb - en;
                    let soff = ext_start + 10 + eb + eb % 2 + 2 * en;
                    let w = word_at(self.buf, soff + 2 * k);
                    if w == 0xFFFF || w > etab {
                        return None;
                    }
                    let tab_off = soff + 2 * es + 2 * (eb + en + es);
                    let st = StrTable::new(slice_subrange(self.buf, tab_off, tab_off + etab));
                    match st.get(w) {
                        Ok(v) => Some(v),
                        Err(_) => {
                            proof {
                                assert(false);
                            }
                            None
                        },
                    }
                } else {
                    None
                }
            },
            None => None,
        }
    }
}

/// True when two byte slices hold the same bytes.
pub(crate) fn eq_bytes(a: &[u8], b: &[u8]) -> (r: bool)
    ensures
        r == (a@ == b@),
{
    if a.len() != b.len() {
        assert(a@ != b@);
        return false;
    }
    let mut i: usize = 0;
    while i < a.len()
        invariant
            0 <= i <= a@.len(),
            a@.len() == b@.len(),
            forall|k: int| 0 <= k < i ==> a@[k] == b@[k],
        decreases a@.len() - i,
    {
        if a[i] != b[i] {
            assert(a@ != b@);
            return false;
        }
        i += 1;
    }
    proof {
        assert(a@ =~= b@);
    }
    true
}

/// Read the little-endian word at byte offset `off`.
fn word_at(b: &[u8], off: usize) -> (r: usize)
    requires
        off + 2 <= b@.len(),
    ensures
        r == spec_word_at(b@, off as int),
        r < 0x10000,
{
    (b[off] as usize) + 256 * (b[off + 1] as usize)
}

/// Scan the table `b[tab_off .. tab_off + tab_len]` backward for the `x`-th
/// NUL from the end, returning the position just past it.
fn scan_back_nuls(b: &[u8], tab_off: usize, tab_len: usize, x: usize) -> (r: usize)
    requires
        tab_off + tab_len <= b@.len(),
        x >= 1,
    ensures
        r == spec_scan_back(b@.subrange(tab_off as int, tab_off + tab_len), x as int, tab_len as int),
{
    let ghost t = b@.subrange(tab_off as int, tab_off + tab_len);
    let blen = b.len();
    let mut i: usize = tab_len;
    let mut rest: usize = x;
    loop
        invariant
            0 <= i <= tab_len,
            rest >= 1,
            tab_off + tab_len <= blen,
            blen == b@.len(),
            t == b@.subrange(tab_off as int, tab_off + tab_len),
            spec_scan_back(t, rest as int, i as int) == spec_scan_back(t, x as int, tab_len as int),
        decreases i,
    {
        if i == 0 {
            assert(spec_scan_back(t, rest as int, 0) == 0);
            return 0;
        }
        assert(t[i - 1] == b@[tab_off + (i - 1)]);
        if b[tab_off + (i - 1)] == 0 {
            if rest == 1 {
                assert(spec_scan_back(t, rest as int, i as int) == i as int);
                return i;
            }
            proof {
                assert(spec_scan_back(t, rest as int, i as int) == spec_scan_back(
                    t,
                    rest as int - 1,
                    i as int - 1,
                ));
            }
            rest = rest - 1;
        } else {
            proof {
                assert(spec_scan_back(t, rest as int, i as int) == spec_scan_back(
                    t,
                    rest as int,
                    i as int - 1,
                ));
            }
        }
        i = i - 1;
    }
}

} // verus!
