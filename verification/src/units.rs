//! What it means for one unit of a grid (a row, a column or a block) to be
//! complete, stated twice and proved to be the same thing.

use vstd::prelude::*;
use vstd::set_lib::*;

verus! {

/// The value `v` stands in exactly one place of `unit`.
pub open spec fn occurs_once(unit: Seq<u8>, v: u8) -> bool {
    exists|i: int|
        0 <= i < unit.len() && #[trigger] unit[i] == v && forall|j: int|
            0 <= j < unit.len() && #[trigger] unit[j] == v ==> j == i
}

/// A complete unit has nine cells, and each of the values one to nine
/// stands in exactly one of them.
pub open spec fn is_complete_unit(unit: Seq<u8>) -> bool {
    unit.len() == 9 && forall|v: u8| 1 <= v <= 9 ==> #[trigger] occurs_once(unit, v)
}

/// A flawless unit has nine cells, none of them zero or above nine, and no
/// two of them alike. This is the form a scan of the cells can decide.
pub open spec fn is_flawless_unit(unit: Seq<u8>) -> bool {
    &&& unit.len() == 9
    &&& forall|i: int| 0 <= i < 9 ==> 1 <= #[trigger] unit[i] <= 9
    &&& forall|i: int, j: int| 0 <= i < j < 9 ==> #[trigger] unit[i] != #[trigger] unit[j]
}

/// The values a cell of a solved grid may hold.
pub open spec fn digits() -> Set<u8> {
    set![1u8, 2u8, 3u8, 4u8, 5u8, 6u8, 7u8, 8u8, 9u8]
}

proof fn lemma_digits()
    ensures
        digits().finite(),
        digits().len() == 9,
        forall|v: u8| digits().contains(v) <==> 1 <= v <= 9,
{
    broadcast use vstd::set::group_set_axioms;

}

/// A flawless unit is complete: nine different values out of nine possible
/// ones leave none out.
pub proof fn lemma_flawless_is_complete(unit: Seq<u8>)
    requires
        is_flawless_unit(unit),
    ensures
        is_complete_unit(unit),
{
    lemma_digits();
    let held = unit.to_set();
    assert(unit.no_duplicates());
    unit.unique_seq_to_set();
    assert(held.subset_of(digits())) by {
        assert forall|v: u8| held.contains(v) implies digits().contains(v) by {
            let i = choose|i: int| 0 <= i < unit.len() && unit[i] == v;
            assert(1 <= unit[i] <= 9);
        }
    }
    lemma_len_subset(held, digits());
    lemma_subset_equality(held, digits());
    assert forall|v: u8| 1 <= v <= 9 implies #[trigger] occurs_once(unit, v) by {
        assert(held.contains(v));
        let i = choose|i: int| 0 <= i < unit.len() && unit[i] == v;
        assert(unit[i] == v);
        assert forall|j: int| 0 <= j < unit.len() && #[trigger] unit[j] == v implies j == i by {
            if j < i {
                assert(unit[j] != unit[i]);
            } else if i < j {
                assert(unit[i] != unit[j]);
            }
        }
    }
}

/// A complete unit is flawless: where each of nine values has a place of
/// its own among nine cells, no cell is left for anything else.
pub proof fn lemma_complete_is_flawless(unit: Seq<u8>)
    requires
        is_complete_unit(unit),
    ensures
        is_flawless_unit(unit),
{
    lemma_digits();
    let held = unit.to_set();
    unit.lemma_cardinality_of_set();
    assert(held.finite()) by {
        broadcast use vstd::seq_lib::seq_to_set_is_finite;

    }
    assert(digits().subset_of(held)) by {
        assert forall|v: u8| digits().contains(v) implies held.contains(v) by {
            assert(occurs_once(unit, v));
            let i = choose|i: int|
                0 <= i < unit.len() && #[trigger] unit[i] == v && forall|j: int|
                    0 <= j < unit.len() && #[trigger] unit[j] == v ==> j == i;
            assert(unit[i] == v);
        }
    }
    lemma_len_subset(digits(), held);
    lemma_subset_equality(digits(), held);
    assert forall|i: int| 0 <= i < 9 implies 1 <= #[trigger] unit[i] <= 9 by {
        assert(held.contains(unit[i]));
    }
    assert forall|i: int, j: int| 0 <= i < j < 9 implies #[trigger] unit[i] != #[trigger] unit[
        j
    ] by {
        if unit[i] == unit[j] {
            let v = unit[i];
            assert(occurs_once(unit, v));
        }
    }
}

/// In a unit, "each of one to nine exactly once" and "nine cells, none
/// zero, none above nine, none repeated" say the same.
pub proof fn lemma_complete_iff_flawless(unit: Seq<u8>)
    ensures
        is_complete_unit(unit) <==> is_flawless_unit(unit),
{
    if is_complete_unit(unit) {
        lemma_complete_is_flawless(unit);
    }
    if is_flawless_unit(unit) {
        lemma_flawless_is_complete(unit);
    }
}

/// What a scan knows after the first `n` cells of `unit`: all of them are
/// between one and nine, no two are alike, and `used` marks exactly the
/// values met so far.
pub open spec fn scanned(unit: Seq<u8>, n: int, used: [bool; 10]) -> bool {
    &&& forall|k: int| 0 <= k < n ==> 1 <= #[trigger] unit[k] <= 9
    &&& forall|k1: int, k2: int| 0 <= k1 < k2 < n ==> #[trigger] unit[k1] != #[trigger] unit[k2]
    &&& forall|v: int| 1 <= v <= 9 ==> (#[trigger] used[v] <==> met(unit, n, v))
}

/// The value `v` stands among the first `n` cells of `unit`.
pub open spec fn met(unit: Seq<u8>, n: int, v: int) -> bool {
    exists|k: int| 0 <= k < n && #[trigger] unit[k] == v
}

/// Taking in one more cell that is in range and not yet marked keeps the
/// scan's knowledge.
pub proof fn lemma_scan_step(unit: Seq<u8>, n: int, before: [bool; 10], after: [bool; 10])
    requires
        unit.len() == 9,
        0 <= n < 9,
        scanned(unit, n, before),
        1 <= unit[n] <= 9,
        !before[unit[n] as int],
        after@ == before@.update(unit[n] as int, true),
    ensures
        scanned(unit, n + 1, after),
{
    assert forall|k1: int, k2: int| 0 <= k1 < k2 < n + 1 implies #[trigger] unit[k1]
        != #[trigger] unit[k2] by {
        if k2 == n && unit[k1] == unit[n] {
            assert(met(unit, n, unit[n] as int));
        }
    }
    assert forall|v: int| 1 <= v <= 9 implies (#[trigger] after[v] <==> met(unit, n + 1, v)) by {
        assert(before[v] <==> met(unit, n, v));
        if v == unit[n] {
            assert(unit[n] == v);
        } else {
            assert(after[v] == before[v]);
            if met(unit, n, v) {
                let k = choose|k: int| 0 <= k < n && #[trigger] unit[k] == v;
                assert(unit[k] == v);
            }
            if met(unit, n + 1, v) {
                let k = choose|k: int| 0 <= k < n + 1 && #[trigger] unit[k] == v;
                assert(unit[k] == v && k < n);
            }
        }
    }
}

/// A cell that is zero, above nine, or a value already marked makes the
/// unit incomplete, whatever the cells after it hold.
pub proof fn lemma_scan_defect(unit: Seq<u8>, n: int, used: [bool; 10])
    requires
        unit.len() == 9,
        0 <= n < 9,
        scanned(unit, n, used),
        unit[n] == 0 || unit[n] > 9 || used[unit[n] as int],
    ensures
        !is_complete_unit(unit),
{
    if is_complete_unit(unit) {
        lemma_complete_is_flawless(unit);
        assert(1 <= unit[n] <= 9);
        assert(met(unit, n, unit[n] as int));
        let k = choose|k: int| 0 <= k < n && #[trigger] unit[k] == unit[n] as int;
        assert(unit[k] != unit[n]);
    }
}

/// A scan that took in all nine cells has found the unit complete.
pub proof fn lemma_scan_done(unit: Seq<u8>, used: [bool; 10])
    requires
        unit.len() == 9,
        scanned(unit, 9, used),
    ensures
        is_complete_unit(unit),
{
    lemma_flawless_is_complete(unit);
}

} // verus!
