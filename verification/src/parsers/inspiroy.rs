//! Huion Inspiroy and Giano tablets.
use crate::parsers::ReportParser;
use crate::report::{
    aux_report, aux_view, contact_status, has_bits, hex_dump_bytes, hex_dump_prefix, hover_status,
    le16, negate_i8, out_of_range_status, pen_report, pen_view, read_le16, signed8, status_contact,
    status_hover, status_out_of_range, to_i8, wrapping_neg_i8, TabletData, TabletDataView,
};
use vstd::prelude::*;

verus! {

pub struct InspiroyParser;

/// A tilt byte as sent by these tablets, with its sign reversed.
pub open spec fn inspiroy_tilt(d: Seq<u8>, i: int) -> i8 {
    if d.len() > i {
        wrapping_neg_i8(signed8(d[i]))
    } else {
        0
    }
}

/// Inspiroy packets of at least 8 bytes: status 0 is out of range; 0xE0 and
/// 0xE3 are aux reports (keys in byte 4); 0xF0 and 0xF1 wheel reports; any
/// other status is a pen report with little-endian position and pressure.
/// Position bit 16 (bytes 8 and 9) does not fit a 16-bit coordinate and is
/// dropped. Only the first 14 bytes are dumped.
pub open spec fn inspiroy_report(d: Seq<u8>) -> Option<TabletDataView> {
    if d.len() < 8 || d[1] == 0 {
        None
    } else if d[1] == 0xE0 || d[1] == 0xE3 {
        Some(aux_view(d[4], hex_dump_prefix(d, 14)))
    } else if d[1] == 0xF1 || d[1] == 0xF0 {
        Some(aux_view(0, hex_dump_prefix(d, 14)))
    } else {
        let pressure = le16(d[6], d[7]);
        let status = if pressure > 0 {
            contact_status()
        } else if has_bits(d[1], 0x01) {
            hover_status()
        } else {
            out_of_range_status()
        };
        Some(
            pen_view(
                status,
                le16(d[2], d[3]),
                le16(d[4], d[5]),
                pressure,
                inspiroy_tilt(d, 10),
                inspiroy_tilt(d, 11),
                (d[1] >> 1u8) & 0x07u8,
                has_bits(d[1], 0x10),
                0,
                hex_dump_prefix(d, 14),
            ),
        )
    }
}

impl ReportParser for InspiroyParser {
    open spec fn step(&self, data: Seq<u8>) -> (Self, Option<TabletDataView>) {
        (*self, inspiroy_report(data))
    }

    fn parse(&mut self, data: &[u8]) -> (r: Option<TabletData>) {
        if data.len() < 8 {
            return None;
        }
        let raw = hex_dump_bytes(data, 14);
        let s = data[1];
        if s == 0x00 {
            return None;
        }
        if s == 0xE0 || s == 0xE3 {
            return Some(aux_report(data[4], raw));
        }
        if s == 0xF1 || s == 0xF0 {
            return Some(aux_report(0, raw));
        }
        let pressure = read_le16(data[6], data[7]);
        let tilt_x: i8 = if data.len() >= 11 {
            negate_i8(to_i8(data[10]))
        } else {
            0
        };
        let tilt_y: i8 = if data.len() >= 12 {
            negate_i8(to_i8(data[11]))
        } else {
            0
        };
        let status = if pressure > 0 {
            status_contact()
        } else if (s & 0x01) != 0 {
            status_hover()
        } else {
            status_out_of_range()
        };
        Some(
            pen_report(
                status,
                read_le16(data[2], data[3]),
                read_le16(data[4], data[5]),
                pressure,
                tilt_x,
                tilt_y,
                (s >> 1u8) & 0x07u8,
                (s & 0x10) != 0,
                0,
                raw,
            ),
        )
    }
}

} // verus!
