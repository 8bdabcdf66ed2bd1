//! The standard XP-Pen report layout (G-series and relatives).
use crate::report::{
    active_status, status_active, contact_status, has_bits, hex_dump_bytes, hex_dump_prefix,
    hover_status, le16, out_of_range_status, read_le16, report_view, signed8, status_contact,
    status_hover, status_out_of_range, to_i8, TabletData, TabletDataView,
};
use vstd::prelude::*;

verus! {

/// The status word of a standard report byte 1: 0xA0 hover, 0xA1 contact,
/// 0xC0 and 0x00 out of range, anything else "Active".
pub open spec fn xp_pen_status(b: u8) -> Seq<char> {
    if b == 0xA0 {
        hover_status()
    } else if b == 0xA1 {
        contact_status()
    } else if b == 0xC0 || b == 0x00 {
        out_of_range_status()
    } else {
        active_status()
    }
}

/// A signed tilt byte at `i`, 0 when the packet is shorter.
pub open spec fn tilt_at(d: Seq<u8>, i: int) -> i8 {
    if d.len() > i {
        signed8(d[i])
    } else {
        0
    }
}

/// The standard layout (8 bytes or more): little-endian position and
/// pressure at 2..8, signed tilt at 8 and 9 when present, pen buttons in
/// bits 1 and 2 of byte 1 and the eraser in bit 3. Only the first 14 bytes
/// are dumped.
pub open spec fn standard_report(d: Seq<u8>) -> Option<TabletDataView> {
    if d.len() < 8 {
        None
    } else {
        Some(
            TabletDataView {
                status: xp_pen_status(d[1]),
                x: le16(d[2], d[3]),
                y: le16(d[4], d[5]),
                pressure: le16(d[6], d[7]),
                tilt_x: tilt_at(d, 8),
                tilt_y: tilt_at(d, 9),
                buttons: (d[1] >> 1u8) & 0x03u8,
                eraser: has_bits(d[1], 0x08),
                hover_distance: 0,
                raw_data: hex_dump_prefix(d, 14),
                is_connected: !(d[1] == 0xC0 || d[1] == 0x00),
            },
        )
    }
}

pub fn parse(data: &[u8]) -> (r: Option<TabletData>)
    ensures
        report_view(r) == standard_report(data@),
{
    if data.len() < 8 {
        return None;
    }
    let x = read_le16(data[2], data[3]);
    let y = read_le16(data[4], data[5]);
    let pressure = read_le16(data[6], data[7]);
    let tilt_x: i8 = if data.len() > 8 {
        to_i8(data[8])
    } else {
        0
    };
    let tilt_y: i8 = if data.len() > 9 {
        to_i8(data[9])
    } else {
        0
    };
    let b = data[1];
    let raw = hex_dump_bytes(data, 14);
    let out_of_range = b == 0xC0 || b == 0x00;
    let status = if b == 0xA0 {
        status_hover()
    } else if b == 0xA1 {
        status_contact()
    } else if out_of_range {
        status_out_of_range()
    } else {
        status_active()
    };
    Some(
        TabletData {
            status,
            x,
            y,
            pressure,
            tilt_x,
            tilt_y,
            buttons: (b >> 1u8) & 0x03u8,
            eraser: (b & 0x08) != 0,
            hover_distance: 0,
            raw_data: raw,
            is_connected: !out_of_range,
        },
    )
}

} // verus!
