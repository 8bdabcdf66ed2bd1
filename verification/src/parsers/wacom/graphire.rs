//! Wacom Graphire.
use crate::parsers::ReportParser;
use crate::report::{
    aux_report, aux_view, bit_flag, contact_or_hover, flag, has_bits, hex_dump, hex_dump_all, le16,
    mouse_report, mouse_view, pen_report, pen_view, read_le16, status_contact_or_hover, TabletData,
    TabletDataView,
};
use vstd::prelude::*;

verus! {

pub struct GraphireParser;

/// The 10-bit Graphire pressure field: byte 6 and the low two bits of byte 7.
pub open spec fn graphire_pressure_field(d: Seq<u8>) -> u16
    recommends
        d.len() >= 8,
{
    le16(d[6], d[7] & 0x03u8)
}

/// The two aux keys in bits 6 and 7 of byte 7, at bit positions `first` and `first + 1`.
pub open spec fn graphire_aux_keys(b7: u8, first: int) -> int {
    flag(has_bits(b7, 0x40), 1) * first + flag(has_bits(b7, 0x80), 2) * first
}

/// 8-byte packets with report id 2. When byte 1 bit 7 is set or any of the
/// position or pressure fields is non-zero, bit 6 of byte 1 selects a mouse
/// report (keys 0 and 1 from byte 7) or a pen report (pressure valid with
/// bit 0, eraser 0x20, pen buttons 0x02 and 0x04, keys as buttons 2 and 3);
/// otherwise the packet is an aux report with the two keys.
pub open spec fn graphire_report(d: Seq<u8>) -> Option<TabletDataView> {
    if d.len() < 8 || d[0] != 0x02 {
        None
    } else {
        let position_available = has_bits(d[1], 0x80) || d[2] != 0 || d[3] != 0 || d[4] != 0
            || d[5] != 0 || graphire_pressure_field(d) != 0;
        if position_available {
            if has_bits(d[1], 0x40) {
                Some(
                    mouse_view(
                        le16(d[2], d[3]),
                        le16(d[4], d[5]),
                        graphire_aux_keys(d[7], 1) as u8,
                        hex_dump(d),
                    ),
                )
            } else {
                let pressure: u16 = if has_bits(d[1], 0x01) {
                    graphire_pressure_field(d)
                } else {
                    0
                };
                Some(
                    pen_view(
                        contact_or_hover(pressure as int),
                        le16(d[2], d[3]),
                        le16(d[4], d[5]),
                        pressure,
                        0,
                        0,
                        (flag(has_bits(d[1], 0x02), 1) + flag(has_bits(d[1], 0x04), 2)
                            + graphire_aux_keys(d[7], 4)) as u8,
                        has_bits(d[1], 0x20),
                        0,
                        hex_dump(d),
                    ),
                )
            }
        } else {
            Some(aux_view(graphire_aux_keys(d[7], 1) as u8, hex_dump(d)))
        }
    }
}

impl ReportParser for GraphireParser {
    open spec fn step(&self, data: Seq<u8>) -> (Self, Option<TabletDataView>) {
        (*self, graphire_report(data))
    }

    fn parse(&mut self, data: &[u8]) -> (r: Option<TabletData>) {
        if data.len() < 8 {
            return None;
        }
        let raw = hex_dump_all(data);
        if data[0] != 0x02 {
            return None;
        }
        let pressure_field = read_le16(data[6], data[7] & 0x03);
        let keys = bit_flag(data[7], 0x40, 1) + bit_flag(data[7], 0x80, 2);
        let pos_available = (data[1] & 0x80) != 0 || data[2] != 0 || data[3] != 0 || data[4] != 0
            || data[5] != 0 || pressure_field != 0;
        if pos_available {
            if (data[1] & 0x40) != 0 {
                return Some(
                    mouse_report(
                        read_le16(data[2], data[3]),
                        read_le16(data[4], data[5]),
                        keys,
                        raw,
                    ),
                );
            }
            let pressure = if (data[1] & 0x01) != 0 {
                pressure_field
            } else {
                0
            };
            let buttons = bit_flag(data[1], 0x02, 1) + bit_flag(data[1], 0x04, 2) + keys * 4;
            return Some(
                pen_report(
                    status_contact_or_hover(pressure),
                    read_le16(data[2], data[3]),
                    read_le16(data[4], data[5]),
                    pressure,
                    0,
                    0,
                    buttons,
                    (data[1] & 0x20) != 0,
                    0,
                    raw,
                ),
            );
        }
        Some(aux_report(keys, raw))
    }
}

} // verus!
