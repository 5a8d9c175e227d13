//! The grid of volatile cells that stands for display memory.
//!
//! Cells are read and written through the `volatile` crate, so that no access
//! is elided or reordered. What that crate does is taken on trust here: the
//! two functions below are the only places where it is called.

use super::cell::{ScreenChar, BUFFER_HEIGHT, BUFFER_WIDTH};
use volatile::Volatile;
use vstd::prelude::*;

verus! {

/// `volatile::Volatile`, a value that is only read and written by volatile
/// loads and stores. It is declared so that cells can be named; what a cell
/// holds is known only through `cell_bytes`.
#[verifier::external_type_specification]
#[verifier::external_body]
#[verifier::reject_recursive_types(T)]
pub struct ExVolatile<T: Copy>(Volatile<T>);

/// Display memory: 25 rows of 80 cells, two bytes each, row after row.
pub type Buffer = [[Volatile<[u8; 2]>; BUFFER_WIDTH]; BUFFER_HEIGHT];

/// The two bytes that a cell of display memory holds.
pub uninterp spec fn cell_bytes(cell: Volatile<[u8; 2]>) -> Seq<u8>;

/// `Volatile::read`: a volatile load of the wrapped value. Trusted to hand
/// back exactly the two bytes that the cell holds.
#[verifier::external_body]
pub(crate) fn read_cell(cell: &Volatile<[u8; 2]>) -> (bytes: [u8; 2])
    ensures
        bytes@ == cell_bytes(*cell),
{
    cell.read()
}

/// `Volatile::write`: a volatile store to the wrapped value. Trusted to leave
/// the cell holding exactly the two bytes given and, as its documentation
/// says, never to panic.
#[verifier::external_body]
pub(crate) fn write_cell(cell: &mut Volatile<[u8; 2]>, bytes: [u8; 2])
    ensures
        cell_bytes(*final(cell)) == bytes@,
    no_unwind
{
    cell.write(bytes)
}

/// The character shown at `row`, `col` of display memory.
pub open spec fn buffer_cell(buffer: Buffer, row: int, col: int) -> ScreenChar {
    ScreenChar::spec_from_bytes(cell_bytes(buffer[row][col]))
}

/// Display memory as rows of characters.
pub open spec fn buffer_rows(buffer: Buffer) -> Seq<Seq<ScreenChar>> {
    Seq::new(
        BUFFER_HEIGHT as nat,
        |row: int| Seq::new(BUFFER_WIDTH as nat, |col: int| buffer_cell(buffer, row, col)),
    )
}

} // verus!
