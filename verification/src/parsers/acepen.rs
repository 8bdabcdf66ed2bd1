//! Acepen tablets: pen reports and express keys whose state is kept between packets.
use crate::parsers::ReportParser;
use crate::report::{
    aux_report, aux_view, bit_flag, contact_or_hover, flag, has_bits, hex_dump, hex_dump_all, le16,
    pen_report, pen_view, read_le16, signed8, status_contact_or_hover, to_i8, TabletData,
    TabletDataView,
};
use vstd::prelude::*;
use vstd::std_specs::bits::u8_trailing_zeros;

verus! {

/// Holds the express-key mask across aux reports, each of which reports one key.
pub struct AcepenParser {
    pub aux_state: u8,
}

impl AcepenParser {
    pub fn new() -> (p: Self)
        ensures
            p.aux_state == 0,
    {
        Self { aux_state: 0 }
    }
}

/// The key an aux report names: the lowest set bit of byte 4 (key 0 when the byte is 0).
pub open spec fn acepen_aux_key(b: u8) -> u8 {
    if b > 0 {
        u8_trailing_zeros(b) as u8
    } else {
        0
    }
}

/// The key mask after an aux report: bit 0 of byte 3 says whether the named
/// key is now down (its bit set) or up (its bit cleared).
pub open spec fn acepen_aux_mask(mask: u8, d: Seq<u8>) -> u8
    recommends
        d.len() >= 11,
{
    let k = acepen_aux_key(d[4]);
    if has_bits(d[3], 0x01) {
        mask | (1u8 << k)
    } else {
        mask & !(1u8 << k)
    }
}

/// 11-byte packets. Byte 1 0x41 is a pen report when the high nibble of
/// byte 2 is 0xA: little-endian position and pressure at 3..9, signed tilt
/// at 9 and 10, pen buttons in bits 0x02 and 0x04 of byte 2. Byte 1 0x42 is
/// an aux report, which updates the key mask and reports all keys.
pub open spec fn acepen_step(mask: u8, d: Seq<u8>) -> (u8, Option<TabletDataView>) {
    if d.len() < 11 {
        (mask, None)
    } else if d[1] == 0x41 {
        if d[2] & 0xF0 == 0xA0 {
            let pressure = le16(d[7], d[8]);
            (
                mask,
                Some(
                    pen_view(
                        contact_or_hover(pressure as int),
                        le16(d[3], d[4]),
                        le16(d[5], d[6]),
                        pressure,
                        signed8(d[9]),
                        signed8(d[10]),
                        (flag(has_bits(d[2], 0x02), 1) + flag(has_bits(d[2], 0x04), 2)) as u8,
                        false,
                        0,
                        hex_dump(d),
                    ),
                ),
            )
        } else {
            (mask, None)
        }
    } else if d[1] == 0x42 {
        let m = acepen_aux_mask(mask, d);
        (m, Some(aux_view(m, hex_dump(d))))
    } else {
        (mask, None)
    }
}

impl ReportParser for AcepenParser {
    open spec fn step(&self, data: Seq<u8>) -> (Self, Option<TabletDataView>) {
        let (m, r) = acepen_step(self.aux_state, data);
        (AcepenParser { aux_state: m }, r)
    }

    fn parse(&mut self, data: &[u8]) -> (r: Option<TabletData>) {
        if data.len() < 11 {
            return None;
        }
        let raw = hex_dump_all(data);
        if data[1] == 0x41 {
            if (data[2] & 0xF0) == 0xA0 {
                let pressure = read_le16(data[7], data[8]);
                let buttons = bit_flag(data[2], 0x02, 1) + bit_flag(data[2], 0x04, 2);
                Some(
                    pen_report(
                        status_contact_or_hover(pressure),
                        read_le16(data[3], data[4]),
                        read_le16(data[5], data[6]),
                        pressure,
                        to_i8(data[9]),
                        to_i8(data[10]),
                        buttons,
                        false,
                        0,
                        raw,
                    ),
                )
            } else {
                None
            }
        } else if data[1] == 0x42 {
            let b4 = data[4];
            proof {
                vstd::std_specs::bits::axiom_u8_trailing_zeros(b4);
            }
            let bit_index: u32 = if b4 > 0 {
                b4.trailing_zeros()
            } else {
                0
            };
            let k = bit_index as u8;
            let is_set = (data[3] & 0x01) != 0;
            let mut current_state = self.aux_state;
            if is_set {
                current_state = current_state | (1u8 << k);
            } else {
                current_state = current_state & !(1u8 << k);
            }
            self.aux_state = current_state;
            Some(aux_report(current_state, raw))
        } else {
            None
        }
    }
}

/// Whether key `j` is down in a key mask.
pub open spec fn key_down(mask: u8, j: u8) -> bool {
    (mask >> j) & 1u8 == 1u8
}

/// An aux report changes exactly the key it names: that key is down after
/// the report if and only if the report says so, and every other key keeps
/// its state.
pub proof fn lemma_acepen_aux_changes_only_named_key(mask: u8, d: Seq<u8>)
    requires
        d.len() >= 11,
        d[1] == 0x42,
    ensures
        forall|j: u8|
            j < 8 ==> key_down(acepen_step(mask, d).0, j) == (if j == acepen_aux_key(d[4]) {
                has_bits(d[3], 0x01)
            } else {
                key_down(mask, j)
            }),
{
    let k = acepen_aux_key(d[4]);
    vstd::std_specs::bits::axiom_u8_trailing_zeros(d[4]);
    assert(k < 8);
    let m = acepen_step(mask, d).0;
    assert forall|j: u8| j < 8 implies key_down(m, j) == (if j == k {
        has_bits(d[3], 0x01)
    } else {
        key_down(mask, j)
    }) by {
        if has_bits(d[3], 0x01) {
            assert(m == mask | (1u8 << k));
            assert(((mask | (1u8 << k)) >> j) & 1u8 == 1u8 <==> (j == k || (mask >> j) & 1u8
                == 1u8)) by (bit_vector)
                requires
                    k < 8,
                    j < 8,
            ;
        } else {
            assert(m == mask & !(1u8 << k));
            assert(((mask & !(1u8 << k)) >> j) & 1u8 == 1u8 <==> (j != k && (mask >> j) & 1u8
                == 1u8)) by (bit_vector)
                requires
                    k < 8,
                    j < 8,
            ;
        }
    }
}

} // verus!
