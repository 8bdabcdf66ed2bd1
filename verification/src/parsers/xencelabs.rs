//! Xencelabs tablets.
use crate::parsers::ReportParser;
use crate::report::{
    aux_report, aux_view, bit_flag, contact_or_hover, flag, has_bits, hex_dump, hex_dump_all, le16,
    pen_report, pen_view, read_le16, signed8, status_contact_or_hover, to_i8, TabletData,
    TabletDataView,
};
use vstd::prelude::*;

verus! {

pub struct XenceLabsParser;

/// Byte 1 with all high bits set is an aux report (keys in byte 2); bit
/// 0x20 a pen report (10 bytes): little-endian position and pressure at
/// 2..8, pen buttons in bits 0x02, 0x04 and 0x08, eraser 0x40, signed tilt
/// bytes at 8 and 9.
pub open spec fn xencelabs_report(d: Seq<u8>) -> Option<TabletDataView> {
    if d.len() < 2 {
        None
    } else if d[1] & 0xF0 == 0xF0 {
        if d.len() < 3 {
            None
        } else {
            Some(aux_view(d[2], hex_dump(d)))
        }
    } else if has_bits(d[1], 0x20) {
        if d.len() < 10 {
            None
        } else {
            let pressure = le16(d[6], d[7]);
            Some(
                pen_view(
                    contact_or_hover(pressure as int),
                    le16(d[2], d[3]),
                    le16(d[4], d[5]),
                    pressure,
                    signed8(d[8]),
                    signed8(d[9]),
                    (flag(has_bits(d[1], 0x02), 1) + flag(has_bits(d[1], 0x04), 2) + flag(
                        has_bits(d[1], 0x08),
                        4,
                    )) as u8,
                    has_bits(d[1], 0x40),
                    0,
                    hex_dump(d),
                ),
            )
        }
    } else {
        None
    }
}

impl ReportParser for XenceLabsParser {
    open spec fn step(&self, data: Seq<u8>) -> (Self, Option<TabletDataView>) {
        (*self, xencelabs_report(data))
    }

    fn parse(&mut self, data: &[u8]) -> (r: Option<TabletData>) {
        if data.len() < 2 {
            return None;
        }
        let raw = hex_dump_all(data);
        let rb = data[1];
        if (rb & 0xF0) == 0xF0 {
            if data.len() < 3 {
                return None;
            }
            Some(aux_report(data[2], raw))
        } else if (rb & 0x20) != 0 {
            if data.len() < 10 {
                return None;
            }
            let pressure = read_le16(data[6], data[7]);
            let buttons = bit_flag(rb, 0x02, 1) + bit_flag(rb, 0x04, 2) + bit_flag(rb, 0x08, 4);
            Some(
                pen_report(
                    status_contact_or_hover(pressure),
                    read_le16(data[2], data[3]),
                    read_le16(data[4], data[5]),
                    pressure,
                    to_i8(data[8]),
                    to_i8(data[9]),
                    buttons,
                    (rb & 0x40) != 0,
                    0,
                    raw,
                ),
            )
        } else {
            None
        }
    }
}

} // verus!
