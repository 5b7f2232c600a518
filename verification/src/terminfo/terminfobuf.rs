//! The owned, mutable mirror of a parsed terminfo file.
//!
//! A `TermInfoBuf` owns every section as a plain vector and can therefore
//! be changed: `set_*` writes a predefined capability, growing the section
//! with absence sentinels on the way, and `set_ext_*` writes an extended
//! capability by name.  The mathematical model of a buffer is
//! `TermInfoBufV`; every method says over that model exactly what it reads
//! or writes.

use vstd::prelude::*;

use crate::terminfo::errors::ErrorKind;
use crate::terminfo::fields::BooleanField;
use crate::terminfo::fields::NumericField;
use crate::terminfo::fields::StringField;
use crate::terminfo::strtab::spec_table_get;
use crate::terminfo::strtab::StringTable;
use crate::terminfo::terminfo::TermInfo;
use crate::terminfo::terminfo::spec_bools_seq;
use crate::terminfo::terminfo::spec_ext_bools_seq;
use crate::terminfo::terminfo::spec_ext_name_offsets_seq;
use crate::terminfo::terminfo::spec_ext_name_table;
use crate::terminfo::terminfo::spec_ext_numbers_seq;
use crate::terminfo::terminfo::spec_ext_string_offsets_seq;
use crate::terminfo::terminfo::spec_ext_value_table;
use crate::terminfo::terminfo::spec_has_ext;
use crate::terminfo::terminfo::spec_names_bytes;
use crate::terminfo::terminfo::spec_numbers_seq;
use crate::terminfo::terminfo::spec_parse_ok;
use crate::terminfo::terminfo::spec_split_names;
use crate::terminfo::terminfo::spec_string_offsets_seq;
use crate::terminfo::terminfo::spec_strtab;
use vstd::string::StringSliceAdditionalSpecFns;

verus! {

/// The model of the extended mirror: each section as a sequence, the value
/// string table, and the separate table that holds capability names.
pub ghost struct ExtBufV {
    pub bools: Seq<bool>,
    pub numbers: Seq<u32>,
    pub strings: Seq<u16>,
    pub names: Seq<u16>,
    pub strtab: Seq<u8>,
    pub nametab: Seq<u8>,
}

/// The model of an owned terminfo buffer.
pub ghost struct TermInfoBufV {
    pub names: Seq<Seq<u8>>,
    pub bools: Seq<bool>,
    pub numbers: Seq<u32>,
    pub strings: Seq<u16>,
    pub strtab: Seq<u8>,
    pub ext: Option<ExtBufV>,
}

/// What a mirror of parsed bytes `b` holds, section for section.
pub open spec fn spec_buf_of(b: Seq<u8>) -> TermInfoBufV {
    TermInfoBufV {
        names: spec_split_names(spec_names_bytes(b)),
        bools: spec_bools_seq(b),
        numbers: spec_numbers_seq(b),
        strings: spec_string_offsets_seq(b),
        strtab: spec_strtab(b),
        ext: if spec_has_ext(b) {
            Some(
                ExtBufV {
                    bools: spec_ext_bools_seq(b),
                    numbers: spec_ext_numbers_seq(b),
                    strings: spec_ext_string_offsets_seq(b),
                    names: spec_ext_name_offsets_seq(b),
                    strtab: spec_ext_value_table(b),
                    nametab: spec_ext_name_table(b),
                },
            )
        } else {
            None
        },
    }
}

/// What `TermInfoBuf::boolean` returns: the stored flag, or `false` when
/// the section is too short to hold it.
pub open spec fn spec_buf_boolean(v: TermInfoBufV, i: int) -> bool {
    0 <= i < v.bools.len() && v.bools[i]
}

/// What `TermInfoBuf::number` returns: the stored word, unless it is absent
/// or out of range.
pub open spec fn spec_buf_number(v: TermInfoBufV, i: int) -> Option<u32> {
    if 0 <= i < v.numbers.len() && v.numbers[i] != 0xFFFF {
        Some(v.numbers[i])
    } else {
        None
    }
}

/// What `TermInfoBuf::string` returns: the table entry the stored offset
/// points at, unless the offset is absent, out of range, or past the table.
pub open spec fn spec_buf_string(v: TermInfoBufV, i: int) -> Option<Seq<u8>> {
    if 0 <= i < v.strings.len() {
        let off = v.strings[i];
        if off != 0xFFFF && off <= v.strtab.len() {
            Some(spec_table_get(v.strtab, off as int))
        } else {
            None
        }
    } else {
        None
    }
}

/// The `j`-th extended capability name of the mirror, or nothing when its
/// offset runs past the name table.
pub open spec fn spec_buf_ext_name(e: ExtBufV, j: int) -> Seq<u8> {
    if e.names[j] <= e.nametab.len() {
        spec_table_get(e.nametab, e.names[j] as int)
    } else {
        Seq::empty()
    }
}

/// The first position at or after `j` whose name equals `name`.
pub open spec fn spec_buf_ext_index_from(e: ExtBufV, name: Seq<u8>, j: int) -> Option<int>
    decreases e.names.len() - j,
{
    if j < 0 || j >= e.names.len() {
        None
    } else if spec_buf_ext_name(e, j) == name {
        Some(j)
    } else {
        spec_buf_ext_index_from(e, name, j + 1)
    }
}

/// What `TermInfoBuf::ext_index` returns: the first extended capability
/// with the given name, if the mirror has an extended part at all.
pub open spec fn spec_buf_ext_index(v: TermInfoBufV, name: Seq<u8>) -> Option<int> {
    match v.ext {
        Some(e) => spec_buf_ext_index_from(e, name, 0),
        None => None,
    }
}

/// What `TermInfoBuf::ext_boolean` returns.
pub open spec fn spec_buf_ext_boolean(v: TermInfoBufV, name: Seq<u8>) -> bool {
    match (v.ext, spec_buf_ext_index(v, name)) {
        (Some(e), Some(j)) => 0 <= j < e.bools.len() && e.bools[j],
        _ => false,
    }
}

/// What `TermInfoBuf::ext_number` returns.
pub open spec fn spec_buf_ext_number(v: TermInfoBufV, name: Seq<u8>) -> Option<u32> {
    match (v.ext, spec_buf_ext_index(v, name)) {
        (Some(e), Some(j)) => {
            let k = j - e.bools.len();
            if 0 <= k < e.numbers.len() && e.numbers[k] != 0xFFFF {
                Some(e.numbers[k])
            } else {
                None
            }
        },
        _ => None,
    }
}

/// What `TermInfoBuf::ext_string` returns.
pub open spec fn spec_buf_ext_string(v: TermInfoBufV, name: Seq<u8>) -> Option<Seq<u8>> {
    match (v.ext, spec_buf_ext_index(v, name)) {
        (Some(e), Some(j)) => {
            let k = j - e.bools.len() - e.numbers.len();
            if 0 <= k < e.strings.len() {
                let off = e.strings[k];
                if off != 0xFFFF && off <= e.strtab.len() {
                    Some(spec_table_get(e.strtab, off as int))
                } else {
                    None
                }
            } else {
                None
            }
        },
        _ => None,
    }
}


/// `s` grown to at least `n` entries with `fill`.
pub open spec fn spec_grow<T>(s: Seq<T>, n: int, fill: T) -> Seq<T> {
    if s.len() >= n {
        s
    } else {
        s + Seq::new((n - s.len()) as nat, |k: int| fill)
    }
}

/// A fresh extended mirror holding one capability name.
pub open spec fn spec_ext_singleton(nm: Seq<u8>) -> ExtBufV {
    ExtBufV {
        bools: Seq::empty(),
        numbers: Seq::empty(),
        strings: Seq::empty(),
        names: seq![0u16],
        strtab: Seq::empty(),
        nametab: nm + seq![0u8],
    }
}

/// What `set_ext_boolean` leaves behind, and whether it succeeds.
///
/// A missing extended part is created on first use.  An existing name of
/// boolean type is overwritten; one of another type leaves the buffer
/// unchanged.  A new name is appended to the boolean section, with its
/// name spliced into the name array right after the existing boolean
/// names; it is refused when the section or the name table is full.
pub open spec fn spec_set_ext_boolean(v: TermInfoBufV, nm: Seq<u8>, val: bool) -> (
    TermInfoBufV,
    Result<(), ErrorKind>,
) {
    match v.ext {
        None => {
            let e = ExtBufV { bools: seq![val], ..spec_ext_singleton(nm) };
            (TermInfoBufV { ext: Some(e), ..v }, Ok(()))
        },
        Some(e) => match spec_buf_ext_index_from(e, nm, 0) {
            Some(x) => if x < e.bools.len() {
                (
                    TermInfoBufV { ext: Some(ExtBufV { bools: e.bools.update(x, val), ..e }), ..v },
                    Ok(()),
                )
            } else {
                (v, Ok(()))
            },
            None => if e.bools.len() > 0xFFFF {
                (v, Err(ErrorKind::MaximumCapabilityCountExceeded))
            } else if e.nametab.len() >= 0xFFFE {
                (v, Err(ErrorKind::MaxStrTabSizeReached))
            } else {
                (
                    TermInfoBufV {
                        ext: Some(
                            ExtBufV {
                                bools: e.bools.push(val),
                                names: e.names.insert(
                                    e.bools.len() as int,
                                    e.nametab.len() as u16,
                                ),
                                nametab: e.nametab + nm + seq![0u8],
                                ..e
                            },
                        ),
                        ..v
                    },
                    Ok(()),
                )
            },
        },
    }
}

/// What `set_ext_number` leaves behind, and whether it succeeds; the cases
/// mirror `spec_set_ext_boolean`.
pub open spec fn spec_set_ext_number(v: TermInfoBufV, nm: Seq<u8>, val: u32) -> (
    TermInfoBufV,
    Result<(), ErrorKind>,
) {
    match v.ext {
        None => {
            let e = ExtBufV { numbers: seq![val], ..spec_ext_singleton(nm) };
            (TermInfoBufV { ext: Some(e), ..v }, Ok(()))
        },
        Some(e) => match spec_buf_ext_index_from(e, nm, 0) {
            Some(x) => if e.bools.len() <= x < e.bools.len() + e.numbers.len() {
                (
                    TermInfoBufV {
                        ext: Some(
                            ExtBufV {
                                numbers: e.numbers.update(x - e.bools.len(), val),
                                ..e
                            },
                        ),
                        ..v
                    },
                    Ok(()),
                )
            } else {
                (v, Ok(()))
            },
            None => if e.numbers.len() > 0xFFFF {
                (v, Err(ErrorKind::MaximumCapabilityCountExceeded))
            } else if e.nametab.len() >= 0xFFFE {
                (v, Err(ErrorKind::MaxStrTabSizeReached))
            } else {
                (
                    TermInfoBufV {
                        ext: Some(
                            ExtBufV {
                                numbers: e.numbers.push(val),
                                names: e.names.insert(
                                    e.bools.len() + e.numbers.len() as int,
                                    e.nametab.len() as u16,
                                ),
                                nametab: e.nametab + nm + seq![0u8],
                                ..e
                            },
                        ),
                        ..v
                    },
                    Ok(()),
                )
            },
        },
    }
}

/// What `set_ext_string` leaves behind, and whether it succeeds; the cases
/// mirror `spec_set_ext_boolean`, with the value appended to the extended
/// string table.
pub open spec fn spec_set_ext_string(v: TermInfoBufV, nm: Seq<u8>, val: Seq<u8>) -> (
    TermInfoBufV,
    Result<(), ErrorKind>,
) {
    match v.ext {
        None => {
            let e = ExtBufV {
                strings: seq![0u16],
                strtab: val + seq![0u8],
                ..spec_ext_singleton(nm)
            };
            (TermInfoBufV { ext: Some(e), ..v }, Ok(()))
        },
        Some(e) => match spec_buf_ext_index_from(e, nm, 0) {
            Some(x) => {
                let k = x - e.bools.len() - e.numbers.len();
                if 0 <= k < e.strings.len() {
                    if e.strtab.len() >= 0xFFFE {
                        (v, Err(ErrorKind::MaxStrTabSizeReached))
                    } else {
                        (
                            TermInfoBufV {
                                ext: Some(
                                    ExtBufV {
                                        strings: e.strings.update(k, e.strtab.len() as u16),
                                        strtab: e.strtab + val + seq![0u8],
                                        ..e
                                    },
                                ),
                                ..v
                            },
                            Ok(()),
                        )
                    }
                } else {
                    (v, Ok(()))
                }
            },
            None => if e.strings.len() > 0xFFFF {
                (v, Err(ErrorKind::MaximumCapabilityCountExceeded))
            } else if e.strtab.len() >= 0xFFFE || e.nametab.len() >= 0xFFFE {
                (v, Err(ErrorKind::MaxStrTabSizeReached))
            } else {
                (
                    TermInfoBufV {
                        ext: Some(
                            ExtBufV {
                                strings: e.strings.push(e.strtab.len() as u16),
                                strtab: e.strtab + val + seq![0u8],
                                names: e.names.push(e.nametab.len() as u16),
                                nametab: e.nametab + nm + seq![0u8],
                                ..e
                            },
                        ),
                        ..v
                    },
                    Ok(()),
                )
            },
        },
    }
}

/// The extended mirror.
#[derive(Debug, Clone)]
struct TermInfoExtBuf {
    bools: Vec<bool>,
    numbers: Vec<u32>,
    strings: Vec<u16>,
    names: Vec<u16>,
    strtab: StringTable,
    nametab: StringTable,
}

impl View for TermInfoExtBuf {
    type V = ExtBufV;

    closed spec fn view(&self) -> ExtBufV {
        ExtBufV {
            bools: self.bools@,
            numbers: self.numbers@,
            strings: self.strings@,
            names: self.names@,
            strtab: self.strtab@,
            nametab: self.nametab@,
        }
    }
}

/// The owning, mutable version of `TermInfo`.
#[derive(Debug, Clone)]
pub struct TermInfoBuf {
    /// The terminal's names, primary name first.
    pub names: Vec<Vec<u8>>,
    bools: Vec<bool>,
    numbers: Vec<u32>,
    strings: Vec<u16>,
    strtab: StringTable,
    ext: Option<TermInfoExtBuf>,
}

impl View for TermInfoBuf {
    type V = TermInfoBufV;

    closed spec fn view(&self) -> TermInfoBufV {
        TermInfoBufV {
            names: self.names.deep_view(),
            bools: self.bools@,
            numbers: self.numbers@,
            strings: self.strings@,
            strtab: self.strtab@,
            ext: match self.ext {
                Some(e) => Some(e@),
                None => None,
            },
        }
    }
}

impl TermInfoBuf {
    /// The extended name array always covers its three sections end to
    /// end, so a new capability's name can be spliced in at the right
    /// place.
    pub open spec fn wf(self) -> bool {
        self@.ext matches Some(e) ==> e.names.len() == e.bools.len() + e.numbers.len()
            + e.strings.len()
    }

    /// Copy a parsed view out into an independent, mutable mirror.  Every
    /// section of the result holds exactly what the view exposes.
    pub fn from_terminfo(ti: &TermInfo) -> (r: TermInfoBuf)
        requires
            ti.wf(),
        ensures
            r@ == spec_buf_of(ti@),
            r.wf(),
    {
        let ext = if ti.has_ext() {
            let (strtab, nametab) = ti.get_ext_tables();
            Some(
                TermInfoExtBuf {
                    bools: ti.get_ext_bools(),
                    numbers: ti.get_ext_numbers(),
                    strings: ti.get_ext_string_offsets(),
                    names: ti.get_ext_name_offsets(),
                    strtab,
                    nametab,
                },
            )
        } else {
            None
        };
        let r = TermInfoBuf {
            names: ti.names(),
            bools: ti.get_bools(),
            numbers: ti.get_numbers(),
            strings: ti.get_string_offsets(),
            strtab: ti.get_strtab(),
            ext,
        };
        r
    }

    /// An empty buffer: no names, every section empty, no extended part.
    pub fn new() -> (r: TermInfoBuf)
        ensures
            r@ == (TermInfoBufV {
                names: Seq::<Seq<u8>>::empty(),
                bools: Seq::<bool>::empty(),
                numbers: Seq::<u32>::empty(),
                strings: Seq::<u16>::empty(),
                strtab: Seq::<u8>::empty(),
                ext: None::<ExtBufV>,
            }),
            r.wf(),
    {
        let r = TermInfoBuf {
            names: Vec::new(),
            bools: Vec::new(),
            numbers: Vec::new(),
            strings: Vec::new(),
            strtab: StringTable::new(),
            ext: None,
        };
        proof {
            assert(r@.names =~= Seq::<Seq<u8>>::empty());
        }
        r
    }

    /// Whether the buffer has an extended part.
    pub fn has_ext(&self) -> (r: bool)
        ensures
            r == (self@.ext is Some),
    {
        self.ext.is_some()
    }

    /// Get a boolean capability; an index the sections do not reach reads
    /// as `false`.
    pub fn boolean(&self, field: BooleanField) -> (r: bool)
        ensures
            r == spec_buf_boolean(self@, field.ordinal()),
    {
        let i = field.index();
        i < self.bools.len() && self.bools[i]
    }

    /// Get a numeric capability.
    pub fn number(&self, field: NumericField) -> (r: Option<u32>)
        ensures
            r == spec_buf_number(self@, field.ordinal()),
    {
        let i = field.index();
        if i < self.numbers.len() && self.numbers[i] != 0xFFFF {
            Some(self.numbers[i])
        } else {
            None
        }
    }

    /// Get a string capability, as the bytes stored in the string table.
    pub fn string(&self, field: StringField) -> (r: Option<Vec<u8>>)
        ensures
            match r {
                Some(v) => spec_buf_string(self@, field.ordinal()) == Some(v@),
                None => spec_buf_string(self@, field.ordinal()) is None,
            },
    {
        let i = field.index();
        if i < self.strings.len() {
            let off = self.strings[i];
            if off != 0xFFFF {
                match self.strtab.get(off as usize) {
                    Ok(v) => Some(v),
                    Err(_) => None,
                }
            } else {
                None
            }
        } else {
            None
        }
    }

    /// An executor over a string capability, ready to take arguments and
    /// run; `None` exactly when the capability is absent.
    pub fn exec(&self, field: StringField) -> (r: Option<crate::lang::Executor<'_>>)
        ensures
            match r {
                Some(ex) => spec_buf_string(self@, field.ordinal()) matches Some(s) && ex@
                    == (crate::lang::executor::ExecutorV {
                    src: s,
                    env: crate::lang::executor::spec_env_init(),
                    argc: 0,
                }) && ex.wf(),
                None => spec_buf_string(self@, field.ordinal()) is None,
            },
    {
        let i = field.index();
        if i < self.strings.len() {
            let off = self.strings[i];
            if off != 0xFFFF {
                match self.strtab.get_slice(off as usize) {
                    Ok(s) => Some(crate::lang::Executor::new(s)),
                    Err(_) => None,
                }
            } else {
                None
            }
        } else {
            None
        }
    }

    /// The position of the first extended capability with the given name.
    /// Repeated calls on an unchanged buffer return the same position.
    pub fn ext_index(&self, name: &str) -> (r: Option<usize>)
        ensures
            match r {
                Some(j) => spec_buf_ext_index(self@, name.spec_bytes()) == Some(j as int),
                None => spec_buf_ext_index(self@, name.spec_bytes()) is None,
            },
    {
        let e = match &self.ext {
            Some(e) => e,
            None => {
                return None;
            },
        };
        let bytes = name.as_bytes();
        let mut j: usize = 0;
        while j < e.names.len()
            invariant
                0 <= j <= e@.names.len(),
                spec_buf_ext_index(self@, name.spec_bytes()) == spec_buf_ext_index_from(
                    e@,
                    name.spec_bytes(),
                    j as int,
                ),
                self@.ext == Some(e@),
                bytes@ == name.spec_bytes(),
            decreases e@.names.len() - j,
        {
            let off = e.names[j];
            let entry = match e.nametab.get_slice(off as usize) {
                Ok(v) => v,
                Err(_) => vstd::slice::slice_subrange(bytes, 0, 0),
            };
            proof {
                assert(entry@ =~= spec_buf_ext_name(e@, j as int));
            }
            if crate::terminfo::terminfo::eq_bytes(entry, bytes) {
                return Some(j);
            }
            proof {
                assert(spec_buf_ext_index_from(e@, name.spec_bytes(), j as int)
                    == spec_buf_ext_index_from(e@, name.spec_bytes(), j + 1));
            }
            j += 1;
        }
        None
    }

    /// Look a boolean capability up by name in the extended part.
    pub fn ext_boolean(&self, name: &str) -> (r: bool)
        ensures
            r == spec_buf_ext_boolean(self@, name.spec_bytes()),
    {
        match self.ext_index(name) {
            Some(j) => {
                match &self.ext {
                    Some(e) => j < e.bools.len() && e.bools[j],
                    None => false,
                }
            },
            None => false,
        }
    }

    /// Look a numeric capability up by name in the extended part.
    pub fn ext_number(&self, name: &str) -> (r: Option<u32>)
        ensures
            r == spec_buf_ext_number(self@, name.spec_bytes()),
    {
        match self.ext_index(name) {
            Some(j) => {
                match &self.ext {
                    Some(e) => {
                        if j >= e.bools.len() && j - e.bools.len() < e.numbers.len() {
                            let x = e.numbers[j - e.bools.len()];
                            if x != 0xFFFF {
                                Some(x)
                            } else {
                                None
                            }
                        } else {
                            None
                        }
                    },
                    None => None,
                }
            },
            None => None,
        }
    }

    /// Look a string capability up by name in the extended part.
    pub fn ext_string(&self, name: &str) -> (r: Option<Vec<u8>>)
        ensures
            match r {
                Some(v) => spec_buf_ext_string(self@, name.spec_bytes()) == Some(v@),
                None => spec_buf_ext_string(self@, name.spec_bytes()) is None,
            },
    {
        match self.ext_index(name) {
            Some(j) => {
                match &self.ext {
                    Some(e) => {
                        if j < e.bools.len() {
                            return None;
                        }
                        let k1 = j - e.bools.len();
                        if k1 < e.numbers.len() {
                            return None;
                        }
                        let k = k1 - e.numbers.len();
                        if k < e.strings.len() {
                            let off = e.strings[k];
                            if off != 0xFFFF {
                                match e.strtab.get(off as usize) {
                                    Ok(v) => Some(v),
                                    Err(_) => None,
                                }
                            } else {
                                None
                            }
                        } else {
                            None
                        }
                    },
                    None => None,
                }
            },
            None => None,
        }
    }

    /// Write a boolean capability, growing the section with `false` up to
    /// its index.  Never fails.
    pub fn set_boolean(&mut self, field: BooleanField, v: bool) -> (r: Result<(), ErrorKind>)
        ensures
            r is Ok,
            final(self)@ == (TermInfoBufV {
                bools: spec_grow(old(self)@.bools, field.ordinal() + 1, false).update(
                    field.ordinal(),
                    v,
                ),
                ..old(self)@
            }),
            old(self).wf() ==> final(self).wf(),
    {
        let i = field.index();
        grow_bools(&mut self.bools, i + 1);
        self.bools.set(i, v);
        Ok(())
    }

    /// Write a numeric capability, growing the section with the absent
    /// sentinel up to its index.  Never fails.
    pub fn set_number(&mut self, field: NumericField, v: u32) -> (r: Result<(), ErrorKind>)
        ensures
            r is Ok,
            final(self)@ == (TermInfoBufV {
                numbers: spec_grow(old(self)@.numbers, field.ordinal() + 1, 0xFFFFu32).update(
                    field.ordinal(),
                    v,
                ),
                ..old(self)@
            }),
            old(self).wf() ==> final(self).wf(),
    {
        let i = field.index();
        grow_numbers(&mut self.numbers, i + 1);
        self.numbers.set(i, v);
        Ok(())
    }

    /// Write a string capability: the bytes are appended to the string
    /// table (never deduplicated) and the section, grown with the absent
    /// sentinel up to its index, records their offset.  Fails with
    /// `MaxStrTabSizeReached`, leaving the buffer unchanged, exactly when
    /// the new entry would start at or past offset `0xFFFE`.
    pub fn set_string(&mut self, field: StringField, v: &[u8]) -> (r: Result<(), ErrorKind>)
        requires
            v@.len() <= 0xFFFF_0000,
        ensures
            match r {
                Ok(()) => old(self)@.strtab.len() < 0xFFFE && final(self)@ == (TermInfoBufV {
                    strings: spec_grow(old(self)@.strings, field.ordinal() + 1, 0xFFFFu16).update(
                        field.ordinal(),
                        old(self)@.strtab.len() as u16,
                    ),
                    strtab: old(self)@.strtab + v@ + seq![0u8],
                    ..old(self)@
                }),
                Err(e) => old(self)@.strtab.len() >= 0xFFFE && e == ErrorKind::MaxStrTabSizeReached
                    && final(self)@ == old(self)@,
            },
            old(self).wf() ==> final(self).wf(),
    {
        let i = field.index();
        if self.strtab.len() >= 0xFFFE {
            return Err(ErrorKind::MaxStrTabSizeReached);
        }
        let offset = self.strtab.add(v);
        grow_strings(&mut self.strings, i + 1);
        self.strings.set(i, offset as u16);
        Ok(())
    }

    /// Write a boolean capability into the extended part by name; see
    /// `spec_set_ext_boolean` for the exact cases.
    pub fn set_ext_boolean(&mut self, name: &str, v: bool) -> (r: Result<(), ErrorKind>)
        requires
            old(self).wf(),
            name.spec_bytes().len() <= 0xFFFF_0000,
        ensures
            final(self)@ == spec_set_ext_boolean(old(self)@, name.spec_bytes(), v).0,
            r == spec_set_ext_boolean(old(self)@, name.spec_bytes(), v).1,
            final(self).wf(),
    {
        let idx = self.ext_index(name);
        match &mut self.ext {
            None => {
                let mut nametab = StringTable::new();
                let off = nametab.add(name.as_bytes());
                let mut names: Vec<u16> = Vec::new();
                names.push(0);
                let mut bools: Vec<bool> = Vec::new();
                bools.push(v);
                self.ext = Some(
                    TermInfoExtBuf {
                        bools,
                        numbers: Vec::new(),
                        strings: Vec::new(),
                        names,
                        strtab: StringTable::new(),
                        nametab,
                    },
                );
                proof {
                    assert(self@.ext.unwrap().bools =~= seq![v]);
                    assert(self@.ext.unwrap().numbers =~= Seq::<u32>::empty());
                    assert(self@.ext.unwrap().strings =~= Seq::<u16>::empty());
                    assert(self@.ext.unwrap().names =~= seq![0u16]);
                    assert(self@.ext.unwrap().strtab =~= Seq::<u8>::empty());
                    assert(self@.ext.unwrap().nametab =~= name.spec_bytes() + seq![0u8]);
                }
                Ok(())
            },
            Some(e) => {
                match idx {
                    Some(x) => {
                        if x < e.bools.len() {
                            e.bools.set(x, v);
                        }
                        Ok(())
                    },
                    None => {
                        if e.bools.len() > 0xFFFF {
                            return Err(ErrorKind::MaximumCapabilityCountExceeded);
                        }
                        if e.nametab.len() >= 0xFFFE {
                            return Err(ErrorKind::MaxStrTabSizeReached);
                        }
                        let off = e.nametab.add(name.as_bytes());
                        let at = e.bools.len();
                        e.bools.push(v);
                        e.names.insert(at, off as u16);
                        Ok(())
                    },
                }
            },
        }
    }

    /// Write a numeric capability into the extended part by name; see
    /// `spec_set_ext_number` for the exact cases.
    pub fn set_ext_number(&mut self, name: &str, v: u32) -> (r: Result<(), ErrorKind>)
        requires
            old(self).wf(),
            name.spec_bytes().len() <= 0xFFFF_0000,
        ensures
            final(self)@ == spec_set_ext_number(old(self)@, name.spec_bytes(), v).0,
            r == spec_set_ext_number(old(self)@, name.spec_bytes(), v).1,
            final(self).wf(),
    {
        let idx = self.ext_index(name);
        match &mut self.ext {
            None => {
                let mut nametab = StringTable::new();
                let off = nametab.add(name.as_bytes());
                let mut names: Vec<u16> = Vec::new();
                names.push(0);
                let mut numbers: Vec<u32> = Vec::new();
                numbers.push(v);
                self.ext = Some(
                    TermInfoExtBuf {
                        bools: Vec::new(),
                        numbers,
                        strings: Vec::new(),
                        names,
                        strtab: StringTable::new(),
                        nametab,
                    },
                );
                proof {
                    assert(self@.ext.unwrap().bools =~= Seq::<bool>::empty());
                    assert(self@.ext.unwrap().numbers =~= seq![v]);
                    assert(self@.ext.unwrap().strings =~= Seq::<u16>::empty());
                    assert(self@.ext.unwrap().names =~= seq![0u16]);
                    assert(self@.ext.unwrap().strtab =~= Seq::<u8>::empty());
                    assert(self@.ext.unwrap().nametab =~= name.spec_bytes() + seq![0u8]);
                }
                Ok(())
            },
            Some(e) => {
                match idx {
                    Some(x) => {
                        if x >= e.bools.len() && x - e.bools.len() < e.numbers.len() {
                            e.numbers.set(x - e.bools.len(), v);
                        }
                        Ok(())
                    },
                    None => {
                        if e.numbers.len() > 0xFFFF {
                            return Err(ErrorKind::MaximumCapabilityCountExceeded);
                        }
                        if e.nametab.len() >= 0xFFFE {
                            return Err(ErrorKind::MaxStrTabSizeReached);
                        }
                        proof {
                            assert(e@.names.len() == e@.bools.len() + e@.numbers.len()
                                + e@.strings.len());
                        }
                        let total = e.names.len();
                        proof {
                            assert(e@.bools.len() + e@.numbers.len() <= total);
                        }
                        let off = e.nametab.add(name.as_bytes());
                        let at = e.bools.len() + e.numbers.len();
                        e.numbers.push(v);
                        e.names.insert(at, off as u16);
                        Ok(())
                    },
                }
            },
        }
    }

    /// Write a string capability into the extended part by name; see
    /// `spec_set_ext_string` for the exact cases.
    pub fn set_ext_string(&mut self, name: &str, v: &[u8]) -> (r: Result<(), ErrorKind>)
        requires
            old(self).wf(),
            name.spec_bytes().len() <= 0xFFFF_0000,
            v@.len() <= 0xFFFF_0000,
        ensures
            final(self)@ == spec_set_ext_string(old(self)@, name.spec_bytes(), v@).0,
            r == spec_set_ext_string(old(self)@, name.spec_bytes(), v@).1,
            final(self).wf(),
    {
        let idx = self.ext_index(name);
        match &mut self.ext {
            None => {
                let mut nametab = StringTable::new();
                let off = nametab.add(name.as_bytes());
                let mut names: Vec<u16> = Vec::new();
                names.push(0);
                let mut strings: Vec<u16> = Vec::new();
                strings.push(0);
                let mut strtab = StringTable::new();
                strtab.add(v);
                self.ext = Some(
                    TermInfoExtBuf {
                        bools: Vec::new(),
                        numbers: Vec::new(),
                        strings,
                        names,
                        strtab,
                        nametab,
                    },
                );
                proof {
                    assert(self@.ext.unwrap().bools =~= Seq::<bool>::empty());
                    assert(self@.ext.unwrap().numbers =~= Seq::<u32>::empty());
                    assert(self@.ext.unwrap().strings =~= seq![0u16]);
                    assert(self@.ext.unwrap().names =~= seq![0u16]);
                    assert(self@.ext.unwrap().strtab =~= v@ + seq![0u8]);
                    assert(self@.ext.unwrap().nametab =~= name.spec_bytes() + seq![0u8]);
                }
                Ok(())
            },
            Some(e) => {
                match idx {
                    Some(x) => {
                        if x >= e.bools.len() {
                            let k1 = x - e.bools.len();
                            if k1 >= e.numbers.len() {
                                let k = k1 - e.numbers.len();
                                if k < e.strings.len() {
                                    if e.strtab.len() >= 0xFFFE {
                                        return Err(ErrorKind::MaxStrTabSizeReached);
                                    }
                                    let off = e.strtab.add(v);
                                    e.strings.set(k, off as u16);
                                }
                            }
                        }
                        Ok(())
                    },
                    None => {
                        if e.strings.len() > 0xFFFF {
                            return Err(ErrorKind::MaximumCapabilityCountExceeded);
                        }
                        if e.strtab.len() >= 0xFFFE || e.nametab.len() >= 0xFFFE {
                            return Err(ErrorKind::MaxStrTabSizeReached);
                        }
                        let off = e.strtab.add(v);
                        e.strings.push(off as u16);
                        let noff = e.nametab.add(name.as_bytes());
                        e.names.push(noff as u16);
                        Ok(())
                    },
                }
            },
        }
    }
}

/// Grow `v` to at least `n` entries with `false`.
fn grow_bools(v: &mut Vec<bool>, n: usize)
    ensures
        final(v)@ == spec_grow(old(v)@, n as int, false),
{
    let ghost v0 = v@;
    while v.len() < n
        invariant
            v@.len() >= v0.len(),
            v@ =~= spec_grow(v0, v@.len() as int, false),
            v@.len() <= vstd::math::max(v0.len() as int, n as int),
        decreases n - v@.len(),
    {
        v.push(false);
        proof {
            assert(v@ =~= spec_grow(v0, v@.len() as int, false));
        }
    }
    proof {
        assert(v@ =~= spec_grow(v0, n as int, false));
    }
}

/// Grow `v` to at least `n` entries with the absent sentinel.
fn grow_numbers(v: &mut Vec<u32>, n: usize)
    ensures
        final(v)@ == spec_grow(old(v)@, n as int, 0xFFFFu32),
{
    let ghost v0 = v@;
    while v.len() < n
        invariant
            v@.len() >= v0.len(),
            v@ =~= spec_grow(v0, v@.len() as int, 0xFFFFu32),
            v@.len() <= vstd::math::max(v0.len() as int, n as int),
        decreases n - v@.len(),
    {
        v.push(0xFFFF);
        proof {
            assert(v@ =~= spec_grow(v0, v@.len() as int, 0xFFFFu32));
        }
    }
    proof {
        assert(v@ =~= spec_grow(v0, n as int, 0xFFFFu32));
    }
}

/// Grow `v` to at least `n` entries with the absent sentinel.
fn grow_strings(v: &mut Vec<u16>, n: usize)
    ensures
        final(v)@ == spec_grow(old(v)@, n as int, 0xFFFFu16),
{
    let ghost v0 = v@;
    while v.len() < n
        invariant
            v@.len() >= v0.len(),
            v@ =~= spec_grow(v0, v@.len() as int, 0xFFFFu16),
            v@.len() <= vstd::math::max(v0.len() as int, n as int),
        decreases n - v@.len(),
    {
        v.push(0xFFFF);
        proof {
            assert(v@ =~= spec_grow(v0, v@.len() as int, 0xFFFFu16));
        }
    }
    proof {
        assert(v@ =~= spec_grow(v0, n as int, 0xFFFFu16));
    }
}

} // verus!
