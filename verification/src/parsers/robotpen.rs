//! RobotPen tablets.
use crate::parsers::ReportParser;
use crate::report::{
    bit_flag, contact_or_hover, flag, has_bits, hex_dump, hex_dump_all, le16, pen_report, pen_view,
    read_le16, status_contact_or_hover, TabletData, TabletDataView,
};
use vstd::prelude::*;

verus! {

pub struct RobotPenParser;

/// Byte 1 is 0x42; little-endian x, y and pressure at 6..12; bit 0x02 of
/// byte 11 is the pen button.
pub open spec fn robotpen_report(d: Seq<u8>) -> Option<TabletDataView> {
    if d.len() < 12 || d[1] != 0x42 {
        None
    } else {
        let pressure = le16(d[10], d[11]);
        Some(
            pen_view(
                contact_or_hover(pressure as int),
                le16(d[6], d[7]),
                le16(d[8], d[9]),
                pressure,
                0,
                0,
                flag(has_bits(d[11], 0x02), 1) as u8,
                false,
                0,
                hex_dump(d),
            ),
        )
    }
}

impl ReportParser for RobotPenParser {
    open spec fn step(&self, data: Seq<u8>) -> (Self, Option<TabletDataView>) {
        (*self, robotpen_report(data))
    }

    fn parse(&mut self, data: &[u8]) -> (r: Option<TabletData>) {
        if data.len() < 12 || data[1] != 0x42 {
            return None;
        }
        let pressure = read_le16(data[10], data[11]);
        Some(
            pen_report(
                status_contact_or_hover(pressure),
                read_le16(data[6], data[7]),
                read_le16(data[8], data[9]),
                pressure,
                0,
                0,
                bit_flag(data[11], 0x02, 1),
                false,
                0,
                hex_dump_all(data),
            ),
        )
    }
}

} // verus!
