//! Wacom Bamboo Pad.
use crate::parsers::ReportParser;
use crate::report::{
    aux_report, aux_view, bit_flag, contact_or_hover, flag, has_bits, hex_dump, hex_dump_all, le16,
    pen_report, pen_view, read_le16, status_contact_or_hover, TabletData, TabletDataView,
};
use vstd::prelude::*;

verus! {

pub struct BambooPadParser;

/// 24-byte packets with report id 0x10. Byte 1 0x01 is a pen report:
/// little-endian position and pressure at 3..9, pen button 0x02 and eraser
/// 0x08 in byte 2. Byte 1 0x06 is an aux report: byte 23 names key 1 or 2.
pub open spec fn bamboo_pad_report(d: Seq<u8>) -> Option<TabletDataView> {
    if d.len() < 24 || d[0] != 0x10 {
        None
    } else if d[1] == 0x01 {
        let pressure = le16(d[7], d[8]);
        Some(
            pen_view(
                contact_or_hover(pressure as int),
                le16(d[3], d[4]),
                le16(d[5], d[6]),
                pressure,
                0,
                0,
                flag(has_bits(d[2], 0x02), 1) as u8,
                has_bits(d[2], 0x08),
                0,
                hex_dump(d),
            ),
        )
    } else if d[1] == 0x06 {
        Some(aux_view((flag(d[23] == 1, 1) + flag(d[23] == 2, 2)) as u8, hex_dump(d)))
    } else {
        None
    }
}

impl ReportParser for BambooPadParser {
    open spec fn step(&self, data: Seq<u8>) -> (Self, Option<TabletDataView>) {
        (*self, bamboo_pad_report(data))
    }

    fn parse(&mut self, data: &[u8]) -> (r: Option<TabletData>) {
        if data.len() < 24 {
            return None;
        }
        let raw = hex_dump_all(data);
        if data[0] == 0x10 {
            if data[1] == 0x01 {
                let pressure = read_le16(data[7], data[8]);
                Some(
                    pen_report(
                        status_contact_or_hover(pressure),
                        read_le16(data[3], data[4]),
                        read_le16(data[5], data[6]),
                        pressure,
                        0,
                        0,
                        bit_flag(data[2], 0x02, 1),
                        (data[2] & 0x08) != 0,
                        0,
                        raw,
                    ),
                )
            } else if data[1] == 0x06 {
                let mut buttons: u8 = 0;
                if data[23] == 1 {
                    buttons = buttons + 1;
                }
                if data[23] == 2 {
                    buttons = buttons + 2;
                }
                Some(aux_report(buttons, raw))
            } else {
                None
            }
        } else {
            None
        }
    }
}

} // verus!
