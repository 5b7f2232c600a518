//! The laws of the terminfo layer: facts that relate the zero-copy view,
//! the owned mirror and the setters to one another, proved once and for
//! all from the same spec functions the methods' contracts use.

use vstd::prelude::*;

use crate::terminfo::strtab::spec_table_get;
use crate::terminfo::terminfo::spec_base_end;
use crate::terminfo::terminfo::spec_parse_ok;
use crate::terminfo::terminfo::spec_strtab;
use crate::terminfo::terminfo::spec_strtab_off;
use crate::terminfo::terminfo::spec_view_boolean;
use crate::terminfo::terminfo::spec_view_number;
use crate::terminfo::terminfo::spec_view_string;
use crate::terminfo::terminfobuf::spec_buf_boolean;
use crate::terminfo::terminfobuf::spec_buf_ext_index;
use crate::terminfo::terminfobuf::spec_buf_number;
use crate::terminfo::terminfobuf::spec_buf_of;
use crate::terminfo::terminfobuf::spec_buf_string;
use crate::terminfo::terminfobuf::spec_grow;
use crate::terminfo::terminfobuf::TermInfoBufV;
use crate::util::lemma_strlen_unique;
use crate::util::spec_strlen;

verus! {

/// For every capability index, the owned mirror of a parsed file answers
/// exactly as the zero-copy view does: booleans agree, numbers agree up to
/// the widening to 32 bits, and strings agree byte for byte.
pub proof fn lemma_buf_mirrors_view(b: Seq<u8>)
    requires
        spec_parse_ok(b),
    ensures
        forall|i: int| spec_buf_boolean(spec_buf_of(b), i) == spec_view_boolean(b, i),
        forall|i: int|
            spec_buf_number(spec_buf_of(b), i) == match spec_view_number(b, i) {
                Some(x) => Some(x as u32),
                None => None::<u32>,
            },
        forall|i: int| spec_buf_string(spec_buf_of(b), i) == spec_view_string(b, i),
{
    let v = spec_buf_of(b);
    assert forall|i: int| spec_buf_boolean(v, i) == spec_view_boolean(b, i) by {}
    assert forall|i: int|
        spec_buf_number(v, i) == match spec_view_number(b, i) {
            Some(x) => Some(x as u32),
            None => None::<u32>,
        } by {}
    assert forall|i: int| spec_buf_string(v, i) == spec_view_string(b, i) by {
        assert(v.strtab.len() == spec_base_end(b) - spec_strtab_off(b));
    }
}

/// Reading the string that starts where `s` was just appended gives `s`
/// back, as long as `s` itself holds no NUL byte.
pub proof fn lemma_table_get_append(t: Seq<u8>, s: Seq<u8>)
    requires
        forall|k: int| 0 <= k < s.len() ==> s[k] != 0,
    ensures
        spec_table_get(t + s + seq![0u8], t.len() as int) == s,
{
    let t2 = t + s + seq![0u8];
    let tail = t2.subrange(t.len() as int, t2.len() as int);
    assert(tail =~= s + seq![0u8]);
    lemma_strlen_unique(tail, s.len() as int);
    assert(t2.subrange(t.len() as int, (t.len() + s.len()) as int) =~= s);
}

/// Writing a boolean capability and reading it back yields the written
/// value; every index the growth filled in on the way reads as `false`,
/// and every other capability is untouched.
pub proof fn lemma_set_then_get_boolean(v: TermInfoBufV, i: int, val: bool)
    requires
        0 <= i,
    ensures
        ({
            let after = TermInfoBufV { bools: spec_grow(v.bools, i + 1, false).update(i, val), ..v };
            &&& spec_buf_boolean(after, i) == val
            &&& forall|j: int|
                v.bools.len() <= j < i ==> !spec_buf_boolean(after, j)
            &&& forall|j: int|
                0 <= j < v.bools.len() && j != i ==> spec_buf_boolean(after, j)
                    == spec_buf_boolean(v, j)
        }),
{
}

/// Writing a numeric capability and reading it back yields the written
/// value, unless the value written is itself the absent sentinel, which
/// reads back as absent; indices filled in by growth read as absent, and
/// every other capability is untouched.
pub proof fn lemma_set_then_get_number(v: TermInfoBufV, i: int, val: u32)
    requires
        0 <= i,
    ensures
        ({
            let after = TermInfoBufV {
                numbers: spec_grow(v.numbers, i + 1, 0xFFFFu32).update(i, val),
                ..v
            };
            &&& spec_buf_number(after, i) == if val != 0xFFFF {
                Some(val)
            } else {
                None::<u32>
            }
            &&& forall|j: int|
                v.numbers.len() <= j < i ==> spec_buf_number(after, j) is None
            &&& forall|j: int|
                0 <= j < v.numbers.len() && j != i ==> spec_buf_number(after, j)
                    == spec_buf_number(v, j)
        }),
{
}

/// Writing a string capability and reading it back yields the written
/// bytes, as long as they hold no NUL; indices filled in by growth read as
/// absent.
pub proof fn lemma_set_then_get_string(v: TermInfoBufV, i: int, s: Seq<u8>)
    requires
        0 <= i,
        v.strtab.len() < 0xFFFE,
        forall|k: int| 0 <= k < s.len() ==> s[k] != 0,
    ensures
        ({
            let after = TermInfoBufV {
                strings: spec_grow(v.strings, i + 1, 0xFFFFu16).update(i, v.strtab.len() as u16),
                strtab: v.strtab + s + seq![0u8],
                ..v
            };
            &&& spec_buf_string(after, i) == Some(s)
            &&& forall|j: int|
                v.strings.len() <= j < i ==> spec_buf_string(after, j) is None
        }),
{
    let after = TermInfoBufV {
        strings: spec_grow(v.strings, i + 1, 0xFFFFu16).update(i, v.strtab.len() as u16),
        strtab: v.strtab + s + seq![0u8],
        ..v
    };
    lemma_table_get_append(v.strtab, s);
    assert(after.strings[i] == v.strtab.len() as u16);
    assert(spec_buf_string(after, i) == Some(s));
}

/// Boolean lookups are total, and a numeric or string lookup is absent
/// exactly when the stored datum is the sentinel or lies out of range:
/// absence is never an error.
pub proof fn lemma_absent_is_not_an_error(v: TermInfoBufV, i: int)
    ensures
        spec_buf_boolean(v, i) == (0 <= i < v.bools.len() && v.bools[i]),
        (spec_buf_number(v, i) is None) <==> (i < 0 || i >= v.numbers.len() || v.numbers[i]
            == 0xFFFF),
        (spec_buf_string(v, i) is None) <==> (i < 0 || i >= v.strings.len() || v.strings[i]
            == 0xFFFF || v.strings[i] > v.strtab.len()),
{
}

/// Looking the same extended name up twice in an unchanged buffer gives
/// the same position: the lookup is a function of the buffer and the name
/// alone.
pub proof fn lemma_ext_index_repeatable(
    v: TermInfoBufV,
    name: Seq<u8>,
    r1: Option<int>,
    r2: Option<int>,
)
    requires
        r1 == spec_buf_ext_index(v, name),
        r2 == spec_buf_ext_index(v, name),
    ensures
        r1 == r2,
{
}

} // verus!
