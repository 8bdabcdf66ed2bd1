//! Wacom PTU displays.
use crate::parsers::ReportParser;
use crate::report::{
    bit_flag, contact_or_hover, flag, has_bits, hex_dump, hex_dump_all, le16, pen_report, pen_view,
    read_le16, status_contact_or_hover, TabletData, TabletDataView,
};
use vstd::prelude::*;

verus! {

pub struct PTUParser;

/// Report id 2 is a pen report (8 bytes): little-endian position and
/// pressure at 2..8, pen buttons 0x02 and 0x10 and eraser 0x04 in byte 1.
pub open spec fn ptu_report(d: Seq<u8>) -> Option<TabletDataView> {
    if d.len() < 8 || d[0] != 0x02 {
        None
    } else {
        let pressure = le16(d[6], d[7]);
        Some(
            pen_view(
                contact_or_hover(pressure as int),
                le16(d[2], d[3]),
                le16(d[4], d[5]),
                pressure,
                0,
                0,
                (flag(has_bits(d[1], 0x02), 1) + flag(has_bits(d[1], 0x10), 2)) as u8,
                has_bits(d[1], 0x04),
                0,
                hex_dump(d),
            ),
        )
    }
}

impl ReportParser for PTUParser {
    open spec fn step(&self, data: Seq<u8>) -> (Self, Option<TabletDataView>) {
        (*self, ptu_report(data))
    }

    fn parse(&mut self, data: &[u8]) -> (r: Option<TabletData>) {
        if data.len() < 8 {
            return None;
        }
        let raw = hex_dump_all(data);
        if data[0] == 0x02 {
            let pressure = read_le16(data[6], data[7]);
            let buttons = bit_flag(data[1], 0x02, 1) + bit_flag(data[1], 0x10, 2);
            Some(
                pen_report(
                    status_contact_or_hover(pressure),
                    read_le16(data[2], data[3]),
                    read_le16(data[4], data[5]),
                    pressure,
                    0,
                    0,
                    buttons,
                    (data[1] & 0x04) != 0,
                    0,
                    raw,
                ),
            )
        } else {
            None
        }
    }
}

} // verus!
