//! The generic HID layout used when no vendor parser matches.
use crate::parsers::ReportParser;
use crate::report::{
    contact_status, has_bits, hex_dump_bytes, hex_dump_prefix, hover_status, le16,
    out_of_range_status, read_le16, report_view, status_contact, status_hover, status_out_of_range,
    TabletData, TabletDataView,
};
use vstd::prelude::*;

verus! {

pub struct FallbackParser;

/// Whether a generic status byte marks the pen out of range.
pub open spec fn fallback_out_of_range(status_byte: u8) -> bool {
    status_byte == 0xC0 || status_byte == 0
}

/// The status word of a generic report: out of range, contact when bit 0 is
/// set or the nib is pressed, hover otherwise.
pub open spec fn fallback_status(status_byte: u8, pressure: u16) -> Seq<char> {
    if fallback_out_of_range(status_byte) {
        out_of_range_status()
    } else if has_bits(status_byte, 0x01) || pressure > 0 {
        contact_status()
    } else {
        hover_status()
    }
}

/// The generic layout `[id, status, x, x, y, y, p, p, ...]`, little endian.
/// Only the first ten bytes are dumped into `raw_data`.
pub open spec fn fallback_report(d: Seq<u8>) -> Option<TabletDataView> {
    if d.len() < 8 {
        None
    } else {
        let pressure = le16(d[6], d[7]);
        Some(
            TabletDataView {
                status: fallback_status(d[1], pressure),
                x: le16(d[2], d[3]),
                y: le16(d[4], d[5]),
                pressure,
                tilt_x: 0,
                tilt_y: 0,
                buttons: 0,
                eraser: false,
                hover_distance: 0,
                raw_data: hex_dump_prefix(d, 10),
                is_connected: !fallback_out_of_range(d[1]),
            },
        )
    }
}

pub fn parse_fallback(data: &[u8]) -> (r: Option<TabletData>)
    ensures
        report_view(r) == fallback_report(data@),
{
    if data.len() < 8 {
        return None;
    }
    let x = read_le16(data[2], data[3]);
    let y = read_le16(data[4], data[5]);
    let pressure = read_le16(data[6], data[7]);
    let raw = hex_dump_bytes(data, 10);
    let status_byte = data[1];
    let out_of_range = status_byte == 0xC0 || status_byte == 0x00;
    let status = if out_of_range {
        status_out_of_range()
    } else if (status_byte & 0x01) != 0 || pressure > 0 {
        status_contact()
    } else {
        status_hover()
    };
    Some(
        TabletData {
            status,
            x,
            y,
            pressure,
            tilt_x: 0,
            tilt_y: 0,
            buttons: 0,
            eraser: false,
            hover_distance: 0,
            raw_data: raw,
            is_connected: !out_of_range,
        },
    )
}

impl ReportParser for FallbackParser {
    open spec fn step(&self, data: Seq<u8>) -> (Self, Option<TabletDataView>) {
        (*self, fallback_report(data))
    }

    fn parse(&mut self, data: &[u8]) -> (r: Option<TabletData>) {
        parse_fallback(data)
    }
}

} // verus!
