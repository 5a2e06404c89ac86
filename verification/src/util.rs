//! The unit in which a byte count is shown, scaled by powers of 1024.

use vstd::prelude::*;

verus! {

/// The number of units that a byte count can be given in: `B`, `KiB`,
/// `MiB`, `GiB`, `TiB`.
pub const UNITS: usize = 5;

/// The number of bytes in the unit of the given index: 1024 to the power
/// of the index.
pub open spec fn unit_size(idx: nat) -> nat
    decreases idx,
{
    if idx == 0 {
        1
    } else {
        1024 * unit_size((idx - 1) as nat)
    }
}

/// The name of the unit of the given index.
pub open spec fn unit_name(idx: nat) -> Seq<char> {
    if idx == 0 {
        "B"@
    } else if idx == 1 {
        "KiB"@
    } else if idx == 2 {
        "MiB"@
    } else if idx == 3 {
        "GiB"@
    } else {
        "TiB"@
    }
}

/// Whether the unit of index `idx` is the one in which `bytes` is shown:
/// the count is below 1024 of that unit, and it is at least one of that
/// unit unless the unit is the byte.
pub open spec fn shown_in(bytes: nat, idx: nat) -> bool {
    &&& idx < UNITS
    &&& bytes < 1024 * unit_size(idx)
    &&& idx == 0 || bytes >= unit_size(idx)
}

/// A unit of display: its index among the units, its size in bytes, and
/// its name.
#[derive(Clone, Copy, Debug, PartialEq, Eq)]
pub struct Unit {
    pub index: usize,
    pub size: u64,
    pub name: &'static str,
}

/// No count is shown in two units.
pub proof fn lemma_unit_is_unique(bytes: nat, i: nat, j: nat)
    requires
        shown_in(bytes, i),
        shown_in(bytes, j),
    ensures
        i == j,
{
    reveal_with_fuel(unit_size, 6);
}

/// Every count below 1024 `TiB` is shown in some unit, and what is shown
/// of a count that is not zero lies between 1 and 1024.
pub proof fn lemma_unit_exists(bytes: nat)
    requires
        bytes < 0x4_0000_0000_0000,
    ensures
        exists|idx: nat| shown_in(bytes, idx),
        forall|idx: nat| #[trigger]
            shown_in(bytes, idx) && bytes > 0 ==> 1 <= bytes / unit_size(idx) < 1024,
{
    reveal_with_fuel(unit_size, 6);
    if bytes < 1024 {
        assert(shown_in(bytes, 0));
    } else if bytes < 0x10_0000 {
        assert(shown_in(bytes, 1));
    } else if bytes < 0x4000_0000 {
        assert(shown_in(bytes, 2));
    } else if bytes < 0x100_0000_0000 {
        assert(shown_in(bytes, 3));
    } else {
        assert(shown_in(bytes, 4));
    }
    assert forall|idx: nat| #[trigger] shown_in(bytes, idx) && bytes > 0 implies 1 <= bytes
        / unit_size(idx) < 1024 by {
        let size = unit_size(idx);
        assert(size >= 1);
        assert(bytes >= size);
        assert(1 <= bytes / size < 1024) by (nonlinear_arith)
            requires
                size >= 1,
                bytes >= size,
                bytes < 1024 * size,
        ;
    }
}

/// The name of the unit of the given index.
fn unit_str(idx: usize) -> (s: &'static str)
    requires
        idx < UNITS,
    ensures
        s@ == unit_name(idx as nat),
{
    if idx == 0 {
        "B"
    } else if idx == 1 {
        "KiB"
    } else if idx == 2 {
        "MiB"
    } else if idx == 3 {
        "GiB"
    } else {
        "TiB"
    }
}

/// Chooses the unit in which a byte count is shown: the largest that
/// leaves at least one whole, up to `TiB`, and the byte for counts below
/// 1024. The count has to be below 1024 `TiB`, for which there is a unit.
/// Dividing the count by the unit's size and writing the quotient out is
/// left to the caller, who has floating point for it.
pub fn format_bytes(bytes: u64) -> (unit: Unit)
    requires
        bytes < 0x4_0000_0000_0000,
    ensures
        shown_in(bytes as nat, unit.index as nat),
        unit.size == unit_size(unit.index as nat),
        unit.name@ == unit_name(unit.index as nat),
{
    let mut idx: usize = 0;
    let mut size: u64 = 1;
    while bytes / size >= 1024
        invariant
            idx < UNITS,
            size == unit_size(idx as nat),
            size >= 1,
            bytes < 0x4_0000_0000_0000,
            idx == 0 || bytes >= size,
        decreases UNITS - idx,
    {
        proof {
            reveal_with_fuel(unit_size, 6);
            if idx == 4 {
                assert(bytes / size < 1024) by (nonlinear_arith)
                    requires
                        bytes < 0x4_0000_0000_0000,
                        size == 0x100_0000_0000,
                ;
            }
            assert(bytes >= size * 1024) by (nonlinear_arith)
                requires
                    bytes / size >= 1024,
                    size >= 1,
            ;
        }
        idx = idx + 1;
        size = size * 1024;
    }
    assert(bytes < 1024 * size) by (nonlinear_arith)
        requires
            bytes / size < 1024,
            size >= 1,
    ;
    Unit { index: idx, size, name: unit_str(idx) }
}

} // verus!
