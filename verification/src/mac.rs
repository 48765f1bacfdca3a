//! Guest hardware addresses.

use vstd::prelude::*;

verus! {

/// The address a guest interface gets when the description names none.
pub const DEFAULT_GUEST_MAC: [u8; 6] = [0x02, 0x00, 0x00, 0x00, 0x00, 0x00];

/// The address of a guest interface: the one asked for, or the default.
pub open spec fn resolved_mac(mac: Option<[u8; 6]>) -> [u8; 6] {
    match mac {
        Some(m) => m,
        None => DEFAULT_GUEST_MAC,
    }
}

/// Resolves the address of a guest interface.
pub fn resolve_mac(mac: Option<[u8; 6]>) -> (r: [u8; 6])
    ensures
        r == resolved_mac(mac),
{
    match mac {
        Some(m) => m,
        None => DEFAULT_GUEST_MAC,
    }
}

/// The default address is `02:00:00:00:00:00`. Its first byte marks it as an
/// address that is administered locally and meant for one station, so it is
/// none that a maker of hardware has assigned.
pub proof fn law_default_mac_local_unicast()
    ensures
        DEFAULT_GUEST_MAC@ == seq![0x02u8, 0x00u8, 0x00u8, 0x00u8, 0x00u8, 0x00u8],
        DEFAULT_GUEST_MAC[0] & 0x02 == 0x02,
        DEFAULT_GUEST_MAC[0] & 0x01 == 0x00,
        resolved_mac(None) == DEFAULT_GUEST_MAC,
{
    assert(DEFAULT_GUEST_MAC@ =~= seq![0x02u8, 0x00u8, 0x00u8, 0x00u8, 0x00u8, 0x00u8]);
    assert(0x02u8 & 0x02 == 0x02) by (bit_vector);
    assert(0x02u8 & 0x01 == 0x00) by (bit_vector);
}

} // verus!
