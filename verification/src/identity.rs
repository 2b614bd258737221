//! The frame's identity, derived from its network interface's MAC address.

use vstd::prelude::*;
use crate::text::{hex_byte_lower, hex_digits, owned, push_hex, push_hex_byte_lower};

verus! {

/// The frame's identifier: `esp32p4-` and the six MAC bytes as lower-case
/// hexadecimal.
pub open spec fn device_id_text(mac: Seq<u8>) -> Seq<char> {
    "esp32p4-"@ + hex_byte_lower(mac[0]) + hex_byte_lower(mac[1]) + hex_byte_lower(mac[2])
        + hex_byte_lower(mac[3]) + hex_byte_lower(mac[4]) + hex_byte_lower(mac[5])
}

/// The frame's friendly name: `Photo Frame ` and the last two MAC bytes as
/// upper-case hexadecimal.
pub open spec fn device_name_text(mac: Seq<u8>) -> Seq<char> {
    "Photo Frame "@ + hex_digits(mac[4] as nat, 2) + hex_digits(mac[5] as nat, 2)
}

/// The identifier and name for a frame with this MAC address.
pub fn device_identity(mac: [u8; 6]) -> (r: (String, String))
    ensures
        r.0@ == device_id_text(mac@),
        r.1@ == device_name_text(mac@),
{
    let mut id = owned("esp32p4-");
    push_hex_byte_lower(&mut id, mac[0]);
    push_hex_byte_lower(&mut id, mac[1]);
    push_hex_byte_lower(&mut id, mac[2]);
    push_hex_byte_lower(&mut id, mac[3]);
    push_hex_byte_lower(&mut id, mac[4]);
    push_hex_byte_lower(&mut id, mac[5]);
    let mut name = owned("Photo Frame ");
    push_hex(&mut name, mac[4] as u64, 2);
    push_hex(&mut name, mac[5] as u64, 2);
    (id, name)
}

} // verus!
