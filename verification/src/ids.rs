//! Identities of peripherals, services and characteristics as 128-bit
//! values, with the uuid crate doing the textual conversions.

use vstd::prelude::*;

verus! {

/// The hyphenated textual form of the 128-bit id `u`.
pub uninterp spec fn uuid_str_of(u: u128) -> Seq<char>;

/// Relies on uuid::Uuid::to_string (through from_u128): the hyphenated text
/// depends on the 128-bit value alone.
#[verifier::external_body]
pub(crate) fn uuid_string(u: u128) -> (r: String)
    ensures
        r@ == uuid_str_of(u),
{
    uuid::Uuid::from_u128(u).to_string()
}

/// Widens a 16-bit standard id to the full 128-bit form by placing it over
/// the standard base id.
pub fn create_ble_uuid(short: u16) -> (r: u128)
    ensures
        r == ((short as u128) << 96) | 0x0000_0000_0000_1000_8000_0080_5F9B_34FBu128,
{
    ((short as u128) << 96) | 0x0000_0000_0000_1000_8000_0080_5F9B_34FBu128
}

} // verus!
