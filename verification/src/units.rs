//! Byte counts as text. The conversion to a unit and the formatting of the
//! figure are those of the `byte_unit` crate; nothing here is proved of them.

use crate::chars::is_plain;
use byte_unit::{Byte, Unit, UnitType};
use vstd::prelude::*;

verus! {

/// A byte count in the largest binary unit that it fills (`B`, `KiB`, `MiB`
/// and so on), as `byte_unit` displays it: the figure, a space, the unit.
pub uninterp spec fn binary_unit_text(bytes: u64) -> Seq<char>;

/// A byte count in gigabytes of 10^9 bytes: the bare figure with `precision`
/// decimal places.
pub uninterp spec fn gigabyte_figure_text(bytes: u64, precision: u16) -> Seq<char>;

/// A byte count in gigabytes of 10^9 bytes as `byte_unit` displays it with
/// `precision` decimal places: the figure, a space, the unit.
pub uninterp spec fn gigabyte_unit_text(bytes: u64, precision: u16) -> Seq<char>;

/// Calls `Byte::get_appropriate_unit` with `UnitType::Binary` and formats the
/// outcome with its `Display`.
///
/// The result is taken to depend on `bytes` alone, and to hold none of the
/// characters that inline markup reserves: `Display` writes the figure as a
/// floating-point number, one space, and a unit name made of letters.
#[verifier::external_body]
pub(crate) fn binary_unit(bytes: u64) -> (text: String)
    ensures
        text@ == binary_unit_text(bytes),
        is_plain(text@),
{
    format!("{}", Byte::from_u64(bytes).get_appropriate_unit(UnitType::Binary))
}

/// Calls `Byte::get_adjusted_unit` with `Unit::GB`, takes the figure with
/// `AdjustedByte::get_value` and formats it with `precision` decimal places.
///
/// The result is taken to depend on the two arguments alone.
#[verifier::external_body]
pub(crate) fn gigabyte_figure(bytes: u64, precision: u16) -> (text: String)
    ensures
        text@ == gigabyte_figure_text(bytes, precision),
{
    let adjusted = Byte::from_u64(bytes).get_adjusted_unit(Unit::GB);
    format!("{:.*}", usize::from(precision), adjusted.get_value())
}

/// Calls `Byte::get_adjusted_unit` with `Unit::GB` and formats the outcome
/// with its `Display`, at `precision` decimal places.
///
/// The result is taken to depend on the two arguments alone.
#[verifier::external_body]
pub(crate) fn gigabyte_unit(bytes: u64, precision: u16) -> (text: String)
    ensures
        text@ == gigabyte_unit_text(bytes, precision),
{
    let adjusted = Byte::from_u64(bytes).get_adjusted_unit(Unit::GB);
    format!("{:.*}", usize::from(precision), adjusted)
}

} // verus!
