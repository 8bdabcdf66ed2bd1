//! ViewSonic WoodPad tablets.
use crate::parsers::ReportParser;
use crate::report::{
    bit_flag, contact_or_hover, flag, has_bits, hex_dump, hex_dump_all, le16, pen_report, pen_view,
    read_le16, signed8, status_contact_or_hover, to_i8, TabletData, TabletDataView,
};
use vstd::prelude::*;

verus! {

pub struct ViewSonicParser;

/// 14-byte packets whose byte 9 has both low bits set: little-endian x at
/// 1..3 and y at 5..7, pressure at 10..12 when bit 0x04 is set, pen buttons
/// in bits 0x08 and 0x10, signed tilt bytes at 12 and 13.
pub open spec fn viewsonic_report(d: Seq<u8>) -> Option<TabletDataView> {
    if d.len() < 14 || d[9] & 0b11 != 0b11 {
        None
    } else {
        let pressure: u16 = if has_bits(d[9], 0x04) {
            le16(d[10], d[11])
        } else {
            0
        };
        Some(
            pen_view(
                contact_or_hover(pressure as int),
                le16(d[1], d[2]),
                le16(d[5], d[6]),
                pressure,
                signed8(d[12]),
                signed8(d[13]),
                (flag(has_bits(d[9], 0x08), 1) + flag(has_bits(d[9], 0x10), 2)) as u8,
                false,
                0,
                hex_dump(d),
            ),
        )
    }
}

impl ReportParser for ViewSonicParser {
    open spec fn step(&self, data: Seq<u8>) -> (Self, Option<TabletDataView>) {
        (*self, viewsonic_report(data))
    }

    fn parse(&mut self, data: &[u8]) -> (r: Option<TabletData>) {
        if data.len() < 14 {
            return None;
        }
        let raw = hex_dump_all(data);
        if (data[9] & 0b11) != 0b11 {
            return None;
        }
        let pressure = if (data[9] & 0x04) != 0 {
            read_le16(data[10], data[11])
        } else {
            0
        };
        let buttons = bit_flag(data[9], 0x08, 1) + bit_flag(data[9], 0x10, 2);
        Some(
            pen_report(
                status_contact_or_hover(pressure),
                read_le16(data[1], data[2]),
                read_le16(data[5], data[6]),
                pressure,
                to_i8(data[12]),
                to_i8(data[13]),
                buttons,
                false,
                0,
                raw,
            ),
        )
    }
}

} // verus!
