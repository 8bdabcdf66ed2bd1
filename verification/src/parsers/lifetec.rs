//! Lifetec tablets.
use crate::parsers::ReportParser;
use crate::report::{
    bit_flag, contact_or_hover, flag, has_bits, hex_dump, hex_dump_all, le16, pen_report, pen_view,
    read_le16, status_contact_or_hover, TabletData, TabletDataView,
};
use vstd::prelude::*;

verus! {

pub struct LifetecParser;

/// Report id 2: little-endian x and y at 1..5, buttons in byte 5 (0x08 and
/// 0x10), pressure at 6..8.
pub open spec fn lifetec_report(d: Seq<u8>) -> Option<TabletDataView> {
    if d.len() < 8 || d[0] != 0x02 {
        None
    } else {
        let pressure = le16(d[6], d[7]);
        Some(
            pen_view(
                contact_or_hover(pressure as int),
                le16(d[1], d[2]),
                le16(d[3], d[4]),
                pressure,
                0,
                0,
                (flag(has_bits(d[5], 0x08), 1) + flag(has_bits(d[5], 0x10), 2)) as u8,
                false,
                0,
                hex_dump(d),
            ),
        )
    }
}

impl ReportParser for LifetecParser {
    open spec fn step(&self, data: Seq<u8>) -> (Self, Option<TabletDataView>) {
        (*self, lifetec_report(data))
    }

    fn parse(&mut self, data: &[u8]) -> (r: Option<TabletData>) {
        if data.len() < 8 || data[0] != 0x02 {
            return None;
        }
        let pressure = read_le16(data[6], data[7]);
        let buttons = bit_flag(data[5], 0x08, 1) + bit_flag(data[5], 0x10, 2);
        Some(
            pen_report(
                status_contact_or_hover(pressure),
                read_le16(data[1], data[2]),
                read_le16(data[3], data[4]),
                pressure,
                0,
                0,
                buttons,
                false,
                0,
                hex_dump_all(data),
            ),
        )
    }
}

} // verus!
