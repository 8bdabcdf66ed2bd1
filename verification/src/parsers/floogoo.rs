//! FlooGoo tablets.
use crate::parsers::ReportParser;
use crate::report::{
    bit_flag, contact_or_hover, flag, has_bits, hex_dump, hex_dump_all, le16, pen_report, pen_view,
    read_le16, read_signed16, saturate_i8, signed16, status_contact_or_hover, TabletData,
    TabletDataView,
};
use vstd::prelude::*;

verus! {

pub struct FlooGooParser;

/// A tilt in hundredths of a degree rounded to whole degrees, halves away
/// from zero, and limited to the range of `i8`.
pub open spec fn centidegrees_to_i8(v: i16) -> i8 {
    let q: int = if v >= 0 {
        (v + 50) / 100
    } else {
        -((50 - v) / 100)
    };
    saturate_i8(q)
}

pub fn round_centidegrees(v: i16) -> (r: i8)
    ensures
        r == centidegrees_to_i8(v),
{
    let w = v as i32;
    let q: i32 = if w >= 0 {
        (w + 50) / 100
    } else {
        -((50 - w) / 100)
    };
    if q > 127 {
        127
    } else if q < -128 {
        -128
    } else {
        q as i8
    }
}

/// A FlooGoo pen report: report id 1, status bit 0x20 means in range,
/// little-endian position and pressure, tilt as signed hundredths of a
/// degree. Bits 0x02 and 0x04 are the pen buttons, 0x08 the eraser.
pub open spec fn floogoo_report(d: Seq<u8>) -> Option<TabletDataView> {
    if d.len() < 12 || d[0] != 0x01 || !has_bits(d[1], 0x20) {
        None
    } else {
        let pressure = le16(d[6], d[7]);
        Some(
            pen_view(
                contact_or_hover(pressure as int),
                le16(d[2], d[3]),
                le16(d[4], d[5]),
                pressure,
                centidegrees_to_i8(signed16(d[8], d[9])),
                centidegrees_to_i8(signed16(d[10], d[11])),
                (flag(has_bits(d[1], 0x02), 1) + flag(has_bits(d[1], 0x04), 2)) as u8,
                has_bits(d[1], 0x08),
                0,
                hex_dump(d),
            ),
        )
    }
}

impl ReportParser for FlooGooParser {
    open spec fn step(&self, data: Seq<u8>) -> (Self, Option<TabletDataView>) {
        (*self, floogoo_report(data))
    }

    fn parse(&mut self, data: &[u8]) -> (r: Option<TabletData>) {
        if data.len() < 12 || data[0] != 0x01 {
            return None;
        }
        let raw = hex_dump_all(data);
        if (data[1] & 0x20) == 0 {
            return None;
        }
        let pressure = read_le16(data[6], data[7]);
        let tilt_x = round_centidegrees(read_signed16(data[8], data[9]));
        let tilt_y = round_centidegrees(read_signed16(data[10], data[11]));
        let buttons = bit_flag(data[1], 0x02, 1) + bit_flag(data[1], 0x04, 2);
        Some(
            pen_report(
                status_contact_or_hover(pressure),
                read_le16(data[2], data[3]),
                read_le16(data[4], data[5]),
                pressure,
                tilt_x,
                tilt_y,
                buttons,
                (data[1] & 0x08) != 0,
                0,
                raw,
            ),
        )
    }
}

} // verus!
