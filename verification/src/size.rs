//! Byte counts as text in binary units: `17179869184` reads `16.0 GiB`.
//!
//! The unit is chosen here: the largest one that the count reaches, so that
//! the scaled value is at least one. Scaling and rendering are `byte_unit`'s
//! and std's work on floating point, reached through [`render`]: of its text
//! this module knows only that it is a function of the count and the unit.

use byte_unit::{Byte, ByteUnit};
use vstd::prelude::*;

verus! {

/// The binary units, each 1024 times the one before.
#[derive(Clone, Copy, Debug, PartialEq, Eq, Structural)]
pub enum BinaryUnit {
    B,
    KiB,
    MiB,
    GiB,
    TiB,
    PiB,
    EiB,
    ZiB,
}

impl BinaryUnit {
    /// How many steps of 1024 the unit is above the byte.
    pub open spec fn rank(self) -> nat {
        match self {
            BinaryUnit::B => 0,
            BinaryUnit::KiB => 1,
            BinaryUnit::MiB => 2,
            BinaryUnit::GiB => 3,
            BinaryUnit::TiB => 4,
            BinaryUnit::PiB => 5,
            BinaryUnit::EiB => 6,
            BinaryUnit::ZiB => 7,
        }
    }

    /// The number of bytes in one unit.
    pub open spec fn bytes(self) -> nat {
        match self {
            BinaryUnit::B => 1,
            BinaryUnit::KiB => 1024,
            BinaryUnit::MiB => 1048576,
            BinaryUnit::GiB => 1073741824,
            BinaryUnit::TiB => 1099511627776,
            BinaryUnit::PiB => 1125899906842624,
            BinaryUnit::EiB => 1152921504606846976,
            BinaryUnit::ZiB => 1180591620717411303424,
        }
    }
}

/// The unit a count is shown in: the largest one that is not above the
/// count, and the byte for counts under 1024.
pub open spec fn unit_for(bytes: nat) -> BinaryUnit {
    if bytes >= BinaryUnit::ZiB.bytes() {
        BinaryUnit::ZiB
    } else if bytes >= BinaryUnit::EiB.bytes() {
        BinaryUnit::EiB
    } else if bytes >= BinaryUnit::PiB.bytes() {
        BinaryUnit::PiB
    } else if bytes >= BinaryUnit::TiB.bytes() {
        BinaryUnit::TiB
    } else if bytes >= BinaryUnit::GiB.bytes() {
        BinaryUnit::GiB
    } else if bytes >= BinaryUnit::MiB.bytes() {
        BinaryUnit::MiB
    } else if bytes >= BinaryUnit::KiB.bytes() {
        BinaryUnit::KiB
    } else {
        BinaryUnit::B
    }
}

/// The text of a count scaled to a unit: the quotient with one fractional
/// digit, a space, and the unit's name.
pub uninterp spec fn scaled_text(bytes: u128, unit: BinaryUnit) -> Seq<char>;

/// The text of a count in the unit chosen for it.
pub open spec fn size_text(bytes: u128) -> Seq<char> {
    scaled_text(bytes, unit_for(bytes as nat))
}

/// Each unit is 1024 times the one below it.
pub proof fn lemma_unit_steps(unit: BinaryUnit)
    ensures
        unit.rank() == 0 ==> unit.bytes() == 1,
        forall|lower: BinaryUnit| #[trigger]
            lower.rank() + 1 == unit.rank() ==> unit.bytes() == 1024 * lower.bytes(),
{
}

/// The chosen unit is the largest that the count reaches: no unit above the
/// count is chosen (but the byte, for zero), and every unit that the count
/// reaches is at most the chosen one. So the scaled value is at least 1, and
/// under 1024 for every unit but the largest.
pub proof fn lemma_unit_is_largest_reached(bytes: nat)
    ensures
        bytes >= 1 ==> unit_for(bytes).bytes() <= bytes,
        bytes < 1024 <==> unit_for(bytes) == BinaryUnit::B,
        unit_for(bytes) != BinaryUnit::ZiB ==> bytes < 1024 * unit_for(bytes).bytes(),
        forall|other: BinaryUnit| #[trigger]
            other.bytes() <= bytes ==> other.rank() <= unit_for(bytes).rank(),
{
}

/// The unit a count is shown in.
pub fn appropriate_unit(bytes: u128) -> (unit: BinaryUnit)
    ensures
        unit == unit_for(bytes as nat),
{
    if bytes >= 1180591620717411303424u128 {
        BinaryUnit::ZiB
    } else if bytes >= 1152921504606846976u128 {
        BinaryUnit::EiB
    } else if bytes >= 1125899906842624u128 {
        BinaryUnit::PiB
    } else if bytes >= 1099511627776u128 {
        BinaryUnit::TiB
    } else if bytes >= 1073741824u128 {
        BinaryUnit::GiB
    } else if bytes >= 1048576u128 {
        BinaryUnit::MiB
    } else if bytes >= 1024u128 {
        BinaryUnit::KiB
    } else {
        BinaryUnit::B
    }
}

/// Scales a count to a unit and renders it.
///
/// Not verified: `byte_unit::Byte::get_adjusted_unit` divides the count by
/// the unit's size in floating point, and the quotient
/// (`AdjustedByte::get_value`) is written with one fractional digit before
/// the unit's name (`AdjustedByte::get_unit`). The contract claims only that
/// the text depends on the count and the unit alone.
#[verifier::external_body]
fn render(bytes: u128, unit: BinaryUnit) -> (text: String)
    ensures
        text@ == scaled_text(bytes, unit),
{
    let unit = match unit {
        BinaryUnit::B => ByteUnit::B,
        BinaryUnit::KiB => ByteUnit::KiB,
        BinaryUnit::MiB => ByteUnit::MiB,
        BinaryUnit::GiB => ByteUnit::GiB,
        BinaryUnit::TiB => ByteUnit::TiB,
        BinaryUnit::PiB => ByteUnit::PiB,
        BinaryUnit::EiB => ByteUnit::EiB,
        BinaryUnit::ZiB => ByteUnit::ZiB,
    };
    let adjusted = Byte::from_bytes(bytes).get_adjusted_unit(unit);
    format!("{:.1} {}", adjusted.get_value(), adjusted.get_unit())
}

/// A count of bytes as text in the unit chosen for it, with one fractional
/// digit.
pub fn format_size(bytes: u128) -> (text: String)
    ensures
        text@ == size_text(bytes),
{
    render(bytes, appropriate_unit(bytes))
}

} // verus!
