//! Bosto tablets.
use crate::parsers::ReportParser;
use crate::report::{
    bit_flag, contact_or_hover, flag, has_bits, hex_dump, hex_dump_all, le16, pen_report, pen_view,
    read_le16, status_contact_or_hover, TabletData, TabletDataView,
};
use vstd::prelude::*;

verus! {

pub struct BostoParser;

/// A Bosto pen report: `[id, status, x, x, y, y, p, p]`, little endian;
/// status 0 means the pen is out of range. Status bit 0x20 is the first pen
/// button, bit 0x02 the second.
pub open spec fn bosto_report(d: Seq<u8>) -> Option<TabletDataView> {
    if d.len() < 8 || d[1] == 0 {
        None
    } else {
        let pressure = le16(d[6], d[7]);
        Some(
            pen_view(
                contact_or_hover(pressure as int),
                le16(d[2], d[3]),
                le16(d[4], d[5]),
                pressure,
                0,
                0,
                (flag(has_bits(d[1], 0x20), 1) + flag(has_bits(d[1], 0x02), 2)) as u8,
                false,
                0,
                hex_dump(d),
            ),
        )
    }
}

impl ReportParser for BostoParser {
    open spec fn step(&self, data: Seq<u8>) -> (Self, Option<TabletDataView>) {
        (*self, bosto_report(data))
    }

    fn parse(&mut self, data: &[u8]) -> (r: Option<TabletData>) {
        if data.len() < 8 {
            return None;
        }
        let raw = hex_dump_all(data);
        if data[1] == 0x00 {
            return None;
        }
        let pressure = read_le16(data[6], data[7]);
        let buttons = bit_flag(data[1], 0x20, 1) + bit_flag(data[1], 0x02, 2);
        Some(
            pen_report(
                status_contact_or_hover(pressure),
                read_le16(data[2], data[3]),
                read_le16(data[4], data[5]),
                pressure,
                0,
                0,
                buttons,
                false,
                0,
                raw,
            ),
        )
    }
}

} // verus!
