//! The rows of the table that a recording writes: one column for each of
//! two timestamps, then one for each parameter, in display order.

use crate::cache::ParamState;
use crate::params::{ParamKind, KIND_COUNT};
use crate::value::Value;
use vstd::prelude::*;

verus! {

/// Title of the column of the time before the values of a row were read.
pub const TIMESTAMP_BEFORE: &'static str = "timestamp_before_read";

/// Title of the column of the time after the values of a row were read.
pub const TIMESTAMP_AFTER: &'static str = "timestamp_after_read";

/// How many columns stand before those of the parameters.
pub const TIMESTAMP_COLUMNS: usize = 2;

/// The titles of the columns.
pub open spec fn titles() -> Seq<Seq<char>> {
    seq![TIMESTAMP_BEFORE@, TIMESTAMP_AFTER@] + ParamKind::display_order().map_values(
        |k: ParamKind| k.name_text(),
    )
}

/// The cells of the parameters in a row that holds `values`: for each
/// kind in display order its value, or nothing where it has none.
pub open spec fn cells(values: Map<ParamKind, Value>) -> Seq<Option<Value>> {
    ParamKind::display_order().map_values(|k: ParamKind| ParamState::lookup(values, k))
}

/// The titles of the columns.
pub fn header() -> (r: Vec<&'static str>)
    ensures
        r@.len() == TIMESTAMP_COLUMNS + KIND_COUNT,
        r@.map_values(|s: &'static str| s@) == titles(),
{
    let kinds = ParamKind::sorted();
    let mut out: Vec<&'static str> = Vec::new();
    out.push(TIMESTAMP_BEFORE);
    out.push(TIMESTAMP_AFTER);
    let mut i: usize = 0;
    while i < kinds.len()
        invariant
            i <= kinds@.len(),
            kinds@ == ParamKind::display_order(),
            out@.len() == TIMESTAMP_COLUMNS + i,
            out@[0]@ == TIMESTAMP_BEFORE@,
            out@[1]@ == TIMESTAMP_AFTER@,
            forall|j: int|
                0 <= j < i ==> (#[trigger] out@[TIMESTAMP_COLUMNS + j])@ == kinds@[j].name_text(),
        decreases kinds@.len() - i,
    {
        out.push(kinds[i].name());
        i += 1;
    }
    proof {
        let got = out@.map_values(|s: &'static str| s@);
        let names = ParamKind::display_order().map_values(|k: ParamKind| k.name_text());
        let stamps = seq![TIMESTAMP_BEFORE@, TIMESTAMP_AFTER@];
        assert(stamps.len() == TIMESTAMP_COLUMNS);
        assert forall|j: int| 0 <= j < got.len() implies got[j] == titles()[j] by {
            if j < TIMESTAMP_COLUMNS {
                assert(titles()[j] == stamps[j]);
            } else {
                assert(titles()[j] == names[j - TIMESTAMP_COLUMNS]);
                assert(out@[TIMESTAMP_COLUMNS + (j - TIMESTAMP_COLUMNS)]@ == kinds@[j
                    - TIMESTAMP_COLUMNS].name_text());
            }
        }
        assert(got =~= titles());
    }
    out
}

/// The cells of the parameters in a row that holds `values`.
pub fn row(values: &ParamState) -> (r: Vec<Option<Value>>)
    ensures
        r@.len() == KIND_COUNT,
        r@ == cells(values@),
{
    let kinds = ParamKind::sorted();
    let mut out: Vec<Option<Value>> = Vec::new();
    let mut i: usize = 0;
    while i < kinds.len()
        invariant
            i <= kinds@.len(),
            kinds@ == ParamKind::display_order(),
            out@.len() == i,
            forall|j: int|
                0 <= j < i ==> #[trigger] out@[j] == ParamState::lookup(values@, kinds@[j]),
        decreases kinds@.len() - i,
    {
        out.push(values.get(kinds[i]));
        i += 1;
    }
    assert(out@ =~= cells(values@));
    out
}

} // verus!
