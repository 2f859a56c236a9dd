//! Coil tables of the built-in wirings.
//!
//! Each table maps a step index to the level of every pin, `true` being
//! high. A driver energises the row `this_step % cycle`, where the cycle is
//! the number of rows.
use vstd::prelude::*;

verus! {

/// Rows of the 2-pin wave drive, pins `(p1, p2)`.
pub open spec fn two_wire_table() -> Seq<Seq<bool>> {
    seq![
        seq![false, true],
        seq![true, true],
        seq![true, false],
        seq![false, false],
    ]
}

/// Rows of the classic 4-pin sequence, pins `(p1, p2, p3, p4)`.
pub open spec fn four_wire_table() -> Seq<Seq<bool>> {
    seq![
        seq![true, false, true, false],
        seq![false, true, true, false],
        seq![false, true, false, true],
        seq![true, false, false, true],
    ]
}

/// Rows of the 5-pin sequence, pins `(p1, p2, p3, p4, p5)`.
pub open spec fn five_wire_table() -> Seq<Seq<bool>> {
    seq![
        seq![false, true, true, false, true],
        seq![false, true, false, false, true],
        seq![false, true, false, true, true],
        seq![false, true, false, true, false],
        seq![true, true, false, true, false],
        seq![true, false, false, true, false],
        seq![true, false, true, true, false],
        seq![true, false, true, false, false],
        seq![true, false, true, false, true],
        seq![false, false, true, false, true],
    ]
}

/// Number of rows of the 2-pin table.
pub const TWO_WIRE_CYCLE: u32 = 4;

/// Number of rows of the 4-pin table.
pub const FOUR_WIRE_CYCLE: u32 = 4;

/// Number of rows of the 5-pin table.
pub const FIVE_WIRE_CYCLE: u32 = 10;

/// Pin levels `(p1, p2)` of the 2-pin drive for the step index `this_step`.
pub fn two_wire_levels(this_step: u32) -> (r: [bool; 2])
    ensures
        r@ == two_wire_table()[(this_step % TWO_WIRE_CYCLE) as int],
{
    let row = this_step % TWO_WIRE_CYCLE;
    let r = if row == 0 {
        [false, true]
    } else if row == 1 {
        [true, true]
    } else if row == 2 {
        [true, false]
    } else {
        [false, false]
    };
    assert(r@ =~= two_wire_table()[row as int]);
    r
}

/// Pin levels `(p1, p2, p3, p4)` of the 4-pin drive for the step index `this_step`.
pub fn four_wire_levels(this_step: u32) -> (r: [bool; 4])
    ensures
        r@ == four_wire_table()[(this_step % FOUR_WIRE_CYCLE) as int],
{
    let row = this_step % FOUR_WIRE_CYCLE;
    let r = if row == 0 {
        [true, false, true, false]
    } else if row == 1 {
        [false, true, true, false]
    } else if row == 2 {
        [false, true, false, true]
    } else {
        [true, false, false, true]
    };
    assert(r@ =~= four_wire_table()[row as int]);
    r
}

/// Pin levels `(p1, p2, p3, p4, p5)` of the 5-pin drive for the step index `this_step`.
pub fn five_wire_levels(this_step: u32) -> (r: [bool; 5])
    ensures
        r@ == five_wire_table()[(this_step % FIVE_WIRE_CYCLE) as int],
{
    let row = this_step % FIVE_WIRE_CYCLE;
    let r = if row == 0 {
        [false, true, true, false, true]
    } else if row == 1 {
        [false, true, false, false, true]
    } else if row == 2 {
        [false, true, false, true, true]
    } else if row == 3 {
        [false, true, false, true, false]
    } else if row == 4 {
        [true, true, false, true, false]
    } else if row == 5 {
        [true, false, false, true, false]
    } else if row == 6 {
        [true, false, true, true, false]
    } else if row == 7 {
        [true, false, true, false, false]
    } else if row == 8 {
        [true, false, true, false, true]
    } else {
        [false, false, true, false, true]
    };
    assert(r@ =~= five_wire_table()[row as int]);
    r
}

} // verus!
