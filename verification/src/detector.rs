//! Decoding of the locale-name buffer that the OS detector fills.
//!
//! When the OS resolves a locale identifier it writes the layout's short
//! language tag into a fixed-size UTF-16 buffer padded with trailing nuls.
//! The detector trims the buffer at the first nul and decodes the prefix
//! as text; a buffer that does not decode yields no signal for that tick.

use vstd::prelude::*;
use vstd::slice::{slice_index_get, slice_subrange};

verus! {

/// What `String::from_utf16` returns for the given code units, as a view:
/// `None` where the units are not valid UTF-16.
pub uninterp spec fn utf16_decoded(units: Seq<u16>) -> Option<Seq<char>>;

/// The code units before the first nul; the whole sequence when no nul
/// occurs.
pub open spec fn nul_prefix(units: Seq<u16>) -> Seq<u16>
    decreases units.len(),
{
    if units.len() == 0 {
        units
    } else if units[0] == 0 {
        Seq::empty()
    } else {
        seq![units[0]] + nul_prefix(units.drop_first())
    }
}

/// Relies on String::from_utf16: the decode depends on the code units
/// alone, fails exactly on invalid UTF-16, and maps empty input to the
/// empty string.
#[verifier::external_body]
fn utf16_to_string(units: &[u16]) -> (r: Option<String>)
    ensures
        r.deep_view() == utf16_decoded(units@),
        r is None ==> units@.len() > 0,
{
    String::from_utf16(units).ok()
}

proof fn lemma_nul_prefix_is_subrange(units: Seq<u16>, n: int)
    requires
        0 <= n <= units.len(),
        forall|j: int| 0 <= j < n ==> units[j] != 0,
        n == units.len() || units[n] == 0,
    ensures
        nul_prefix(units) == units.subrange(0, n),
    decreases units.len(),
{
    if units.len() == 0 {
        assert(units.subrange(0, 0) =~= units);
    } else if units[0] == 0 {
        assert(n == 0);
        assert(units.subrange(0, 0) =~= Seq::<u16>::empty());
    } else {
        assert(n >= 1);
        let rest = units.drop_first();
        assert(forall|j: int| 0 <= j < n - 1 ==> rest[j] == units[j + 1] && rest[j] != 0);
        if n - 1 < rest.len() {
            assert(rest[n - 1] == units[n]);
        }
        lemma_nul_prefix_is_subrange(rest, n - 1);
        assert(seq![units[0]] + rest.subrange(0, n - 1) =~= units.subrange(0, n));
    }
}

/// Decode the language tag from a nul-padded UTF-16 buffer: the text
/// before the first nul, or nothing when that prefix is not valid UTF-16.
pub fn decode_locale_name(buffer: &[u16]) -> (r: Option<String>)
    ensures
        r.deep_view() == utf16_decoded(nul_prefix(buffer@)),
{
    let n = buffer.len();
    let mut end: usize = 0;
    while end < n && *slice_index_get(buffer, end) != 0
        invariant
            n == buffer@.len(),
            end <= n,
            forall|j: int| 0 <= j < end ==> buffer@[j] != 0,
        decreases n - end,
    {
        end += 1;
    }
    proof {
        lemma_nul_prefix_is_subrange(buffer@, end as int);
    }
    let prefix = slice_subrange(buffer, 0, end);
    utf16_to_string(prefix)
}

} // verus!
