//! Veikk tablets.
use crate::parsers::ReportParser;
use crate::report::{
    aux_report, aux_view, contact_or_hover, has_bits, hex_dump, hex_dump_all, le16,
    out_of_range_status, pen_report, pen_view, read_le16, report_view, signed8,
    status_contact_or_hover, status_out_of_range, to_i8, TabletData, TabletDataView,
};
use vstd::prelude::*;

verus! {

pub struct VeikkParser;

pub struct VeikkV1Parser;

pub struct VeikkA15Parser;

pub struct VeikkTiltParser;

/// An aux report whose first eight keys are in byte `offset`; the packet
/// must reach at least one byte past it.
pub open spec fn veikk_aux_report(d: Seq<u8>, offset: int) -> Option<TabletDataView> {
    if d.len() < offset + 2 {
        None
    } else {
        Some(aux_view(d[offset], hex_dump(d)))
    }
}

/// A pen report (11 bytes or more): 24-bit little-endian x at 3..6 and y at
/// 6..9, of which only the low 16 bits fit a coordinate; pressure at 9..11;
/// pen buttons in bits 1 and 2 of byte 2, bit 0x20 of which means in range;
/// with tilt, signed tilt bytes at 11 and 12 when the packet has 13 bytes.
pub open spec fn veikk_tablet_report(d: Seq<u8>, has_tilt: bool) -> Option<TabletDataView> {
    if d.len() < 11 {
        None
    } else {
        let pressure = le16(d[9], d[10]);
        let tilt = has_tilt && d.len() >= 13;
        Some(
            pen_view(
                if has_bits(d[2], 0x20) {
                    contact_or_hover(pressure as int)
                } else {
                    out_of_range_status()
                },
                le16(d[3], d[4]),
                le16(d[6], d[7]),
                pressure,
                if tilt {
                    signed8(d[11])
                } else {
                    0
                },
                if tilt {
                    signed8(d[12])
                } else {
                    0
                },
                (d[2] >> 1u8) & 0x03u8,
                false,
                0,
                hex_dump(d),
            ),
        )
    }
}

/// Byte 1 0x43 is a touchpad report (ignored); bit 0x20 of byte 2 a pen
/// report; byte 2 equal to 1 an aux report with keys in byte 4.
pub open spec fn veikk_report(d: Seq<u8>) -> Option<TabletDataView> {
    if d.len() < 3 || d[1] == 0x43 {
        None
    } else if has_bits(d[2], 0x20) {
        veikk_tablet_report(d, false)
    } else if d[2] == 1 {
        veikk_aux_report(d, 4)
    } else {
        None
    }
}

/// Report id 3 is an aux report with keys in byte 1; byte 1 0x41 a pen
/// report unless byte 2 is 0xC0 (out of range).
pub open spec fn veikk_v1_report(d: Seq<u8>) -> Option<TabletDataView> {
    if d.len() < 3 {
        None
    } else if d[0] == 0x03 {
        veikk_aux_report(d, 1)
    } else if d[1] == 0x41 {
        if d[2] == 0xC0 {
            None
        } else {
            veikk_tablet_report(d, false)
        }
    } else {
        None
    }
}

/// Byte 1 0x41 is a pen report with tilt unless byte 2 is 0xC0; 0x42 an aux
/// report with keys in byte 4; everything else (0x43 touchpad) ignored.
pub open spec fn veikk_tilt_report(d: Seq<u8>) -> Option<TabletDataView> {
    if d.len() < 3 {
        None
    } else if d[1] == 0x41 {
        if d[2] == 0xC0 {
            None
        } else {
            veikk_tablet_report(d, true)
        }
    } else if d[1] == 0x42 {
        veikk_aux_report(d, 4)
    } else {
        None
    }
}

fn parse_veikk_aux(data: &[u8], raw: String, offset: usize) -> (r: Option<TabletData>)
    requires
        raw@ == hex_dump(data@),
        offset <= 4,
    ensures
        report_view(r) == veikk_aux_report(data@, offset as int),
{
    if data.len() < offset + 2 {
        return None;
    }
    Some(aux_report(data[offset], raw))
}

fn parse_veikk_tablet(data: &[u8], raw: String, has_tilt: bool) -> (r: Option<TabletData>)
    requires
        raw@ == hex_dump(data@),
    ensures
        report_view(r) == veikk_tablet_report(data@, has_tilt),
{
    if data.len() < 11 {
        return None;
    }
    let pressure = read_le16(data[9], data[10]);
    let mut tilt_x: i8 = 0;
    let mut tilt_y: i8 = 0;
    if has_tilt && data.len() >= 13 {
        tilt_x = to_i8(data[11]);
        tilt_y = to_i8(data[12]);
    }
    let status = if (data[2] & 0x20) != 0 {
        status_contact_or_hover(pressure)
    } else {
        status_out_of_range()
    };
    Some(
        pen_report(
            status,
            read_le16(data[3], data[4]),
            read_le16(data[6], data[7]),
            pressure,
            tilt_x,
            tilt_y,
            (data[2] >> 1u8) & 0x03u8,
            false,
            0,
            raw,
        ),
    )
}

fn parse_veikk(data: &[u8]) -> (r: Option<TabletData>)
    ensures
        report_view(r) == veikk_report(data@),
{
    if data.len() < 3 {
        return None;
    }
    let raw = hex_dump_all(data);
    if data[1] == 0x43 {
        return None;
    }
    if (data[2] & 0x20) != 0 {
        parse_veikk_tablet(data, raw, false)
    } else if data[2] == 1 {
        parse_veikk_aux(data, raw, 4)
    } else {
        None
    }
}

impl ReportParser for VeikkParser {
    open spec fn step(&self, data: Seq<u8>) -> (Self, Option<TabletDataView>) {
        (*self, veikk_report(data))
    }

    fn parse(&mut self, data: &[u8]) -> (r: Option<TabletData>) {
        parse_veikk(data)
    }
}

impl ReportParser for VeikkV1Parser {
    open spec fn step(&self, data: Seq<u8>) -> (Self, Option<TabletDataView>) {
        (*self, veikk_v1_report(data))
    }

    fn parse(&mut self, data: &[u8]) -> (r: Option<TabletData>) {
        if data.len() < 3 {
            return None;
        }
        let raw = hex_dump_all(data);
        if data[0] == 0x03 {
            parse_veikk_aux(data, raw, 1)
        } else if data[1] == 0x41 {
            if data[2] == 0xC0 {
                return None;
            }
            parse_veikk_tablet(data, raw, false)
        } else {
            None
        }
    }
}

/// The A15 reads the same layout as the generic Veikk parser.
impl ReportParser for VeikkA15Parser {
    open spec fn step(&self, data: Seq<u8>) -> (Self, Option<TabletDataView>) {
        (*self, veikk_report(data))
    }

    fn parse(&mut self, data: &[u8]) -> (r: Option<TabletData>) {
        parse_veikk(data)
    }
}

impl ReportParser for VeikkTiltParser {
    open spec fn step(&self, data: Seq<u8>) -> (Self, Option<TabletDataView>) {
        (*self, veikk_tilt_report(data))
    }

    fn parse(&mut self, data: &[u8]) -> (r: Option<TabletData>) {
        if data.len() < 3 {
            return None;
        }
        let raw = hex_dump_all(data);
        if data[1] == 0x41 {
            if data[2] == 0xC0 {
                None
            } else {
                parse_veikk_tablet(data, raw, true)
            }
        } else if data[1] == 0x42 {
            parse_veikk_aux(data, raw, 4)
        } else {
            None
        }
    }
}

} // verus!
