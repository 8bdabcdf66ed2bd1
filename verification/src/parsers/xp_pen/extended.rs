//! Extended XP-Pen layouts: Gen2, Deco 03, offset pressure and offset aux.
use crate::parsers::ReportParser;
use crate::report::{
    aux_report, aux_view, bit_flag, contact_or_hover, flag, has_bits, hex_dump, hex_dump_all, le16,
    pen_report, pen_view, read_le16, report_view, signed8, status_contact_or_hover, to_i8,
    TabletData, TabletDataView,
};
use vstd::prelude::*;
use crate::parsers::xp_pen::standard::{parse as standard_parse, standard_report};

verus! {

pub struct XpPenGen2Parser;

pub struct XpPenDeco03Parser;

pub struct XpPenOffsetPressureParser;

pub struct XpPenOffsetAuxParser;

pub struct XpPenParser;

/// An aux report whose first eight keys are in byte `offset`.
pub open spec fn xp_aux_report(d: Seq<u8>, offset: int) -> Option<TabletDataView> {
    if d.len() < offset + 1 {
        None
    } else {
        Some(aux_view(d[offset], hex_dump(d)))
    }
}

/// A coordinate whose high part sits in a separate byte, limited to 0xFFFF.
pub open spec fn gen2_coordinate(low: u8, high: u8) -> u16 {
    if high != 0 {
        0xFFFF
    } else {
        low as u16
    }
}

/// The Gen2 pressure: little-endian at 6..8 without bit 14, with bit 13
/// taken from bit 0 of byte 13.
pub open spec fn gen2_pressure(d: Seq<u8>) -> u16
    recommends
        d.len() >= 14,
{
    (le16(d[6], d[7]) & 0xBFFFu16) | (((d[13] & 0x01u8) as u16) << 13u16)
}

/// A Gen2 pen report (14 bytes): x from bytes 2 and 10, y from bytes 4 and
/// 11 (limited to 0xFFFF), signed tilt at 8 and 9, pen buttons 0x02 and
/// 0x04 and eraser 0x08 in byte 1.
pub open spec fn gen2_report(d: Seq<u8>) -> Option<TabletDataView> {
    if d.len() < 14 {
        None
    } else {
        let pressure = gen2_pressure(d);
        Some(
            pen_view(
                contact_or_hover(pressure as int),
                gen2_coordinate(d[2], d[10]),
                gen2_coordinate(d[4], d[11]),
                pressure,
                signed8(d[8]),
                signed8(d[9]),
                (flag(has_bits(d[1], 0x02), 1) + flag(has_bits(d[1], 0x04), 2)) as u8,
                has_bits(d[1], 0x08),
                0,
                hex_dump(d),
            ),
        )
    }
}

/// A pen report in the standard position (8 bytes or more), with signed
/// tilt at 8 and 9 when `has_tilt` and the packet has 10 bytes.
pub open spec fn offset_pressure_report(d: Seq<u8>, has_tilt: bool) -> Option<TabletDataView> {
    if d.len() < 8 {
        None
    } else {
        let pressure = le16(d[6], d[7]);
        let tilt = has_tilt && d.len() >= 10;
        Some(
            pen_view(
                contact_or_hover(pressure as int),
                le16(d[2], d[3]),
                le16(d[4], d[5]),
                pressure,
                if tilt {
                    signed8(d[8])
                } else {
                    0
                },
                if tilt {
                    signed8(d[9])
                } else {
                    0
                },
                (flag(has_bits(d[1], 0x02), 1) + flag(has_bits(d[1], 0x04), 2)) as u8,
                has_bits(d[1], 0x08),
                0,
                hex_dump(d),
            ),
        )
    }
}

/// Status 0xF0 is an aux report (keys in byte 2), a high nibble 0xA a Gen2
/// pen report, anything else the standard layout.
pub open spec fn xp_pen_gen2_report(d: Seq<u8>) -> Option<TabletDataView> {
    if d.len() < 2 {
        None
    } else if d[1] == 0xF0 {
        xp_aux_report(d, 2)
    } else if d[1] & 0xF0 == 0xA0 {
        gen2_report(d)
    } else {
        standard_report(d)
    }
}

/// Status 0xF0 (wheel) and bit 0x10 are aux reports (keys in byte 2),
/// anything else the standard layout.
pub open spec fn xp_pen_deco03_report(d: Seq<u8>) -> Option<TabletDataView> {
    if d.len() < 2 {
        None
    } else if d[1] == 0xF0 || has_bits(d[1], 0x10) {
        xp_aux_report(d, 2)
    } else {
        standard_report(d)
    }
}

/// Bit 0x10 is an aux report (keys in byte 2), anything else a pen report
/// with tilt when the packet has 10 bytes.
pub open spec fn xp_pen_offset_pressure_report(d: Seq<u8>) -> Option<TabletDataView> {
    if d.len() < 2 {
        None
    } else if has_bits(d[1], 0x10) {
        xp_aux_report(d, 2)
    } else {
        offset_pressure_report(d, d.len() >= 10)
    }
}

/// Bit 0x20 is an aux report with keys in byte 4, anything else the standard layout.
pub open spec fn xp_pen_offset_aux_report(d: Seq<u8>) -> Option<TabletDataView> {
    if d.len() < 2 {
        None
    } else if has_bits(d[1], 0x20) {
        xp_aux_report(d, 4)
    } else {
        standard_report(d)
    }
}

/// Bit 0x10 is an aux report (keys in byte 2), anything else the standard layout.
pub open spec fn xp_pen_report(d: Seq<u8>) -> Option<TabletDataView> {
    if d.len() < 2 {
        None
    } else if has_bits(d[1], 0x10) {
        xp_aux_report(d, 2)
    } else {
        standard_report(d)
    }
}

fn parse_aux(data: &[u8], raw: String, offset: usize) -> (r: Option<TabletData>)
    requires
        raw@ == hex_dump(data@),
        offset <= 4,
    ensures
        report_view(r) == xp_aux_report(data@, offset as int),
{
    if data.len() < offset + 1 {
        return None;
    }
    Some(aux_report(data[offset], raw))
}

fn parse_gen2(data: &[u8], raw: String) -> (r: Option<TabletData>)
    requires
        raw@ == hex_dump(data@),
    ensures
        report_view(r) == gen2_report(data@),
{
    if data.len() < 14 {
        return None;
    }
    let x: u16 = if data[10] != 0 {
        0xFFFF
    } else {
        data[2] as u16
    };
    let y: u16 = if data[11] != 0 {
        0xFFFF
    } else {
        data[4] as u16
    };
    let pressure = (read_le16(data[6], data[7]) & 0xBFFFu16) | (((data[13] & 0x01u8) as u16)
        << 13u16);
    let buttons = bit_flag(data[1], 0x02, 1) + bit_flag(data[1], 0x04, 2);
    Some(
        pen_report(
            status_contact_or_hover(pressure),
            x,
            y,
            pressure,
            to_i8(data[8]),
            to_i8(data[9]),
            buttons,
            (data[1] & 0x08) != 0,
            0,
            raw,
        ),
    )
}

fn parse_offset_pressure(data: &[u8], raw: String, has_tilt: bool) -> (r: Option<TabletData>)
    requires
        raw@ == hex_dump(data@),
    ensures
        report_view(r) == offset_pressure_report(data@, has_tilt),
{
    if data.len() < 8 {
        return None;
    }
    let pressure = read_le16(data[6], data[7]);
    let buttons = bit_flag(data[1], 0x02, 1) + bit_flag(data[1], 0x04, 2);
    let mut tilt_x: i8 = 0;
    let mut tilt_y: i8 = 0;
    if has_tilt && data.len() >= 10 {
        tilt_x = to_i8(data[8]);
        tilt_y = to_i8(data[9]);
    }
    Some(
        pen_report(
            status_contact_or_hover(pressure),
            read_le16(data[2], data[3]),
            read_le16(data[4], data[5]),
            pressure,
            tilt_x,
            tilt_y,
            buttons,
            (data[1] & 0x08) != 0,
            0,
            raw,
        ),
    )
}

impl ReportParser for XpPenGen2Parser {
    open spec fn step(&self, data: Seq<u8>) -> (Self, Option<TabletDataView>) {
        (*self, xp_pen_gen2_report(data))
    }

    fn parse(&mut self, data: &[u8]) -> (r: Option<TabletData>) {
        if data.len() < 2 {
            return None;
        }
        let raw = hex_dump_all(data);
        if data[1] == 0xF0 {
            return parse_aux(data, raw, 2);
        }
        if (data[1] & 0xF0) == 0xA0 {
            return parse_gen2(data, raw);
        }
        standard_parse(data)
    }
}

impl ReportParser for XpPenDeco03Parser {
    open spec fn step(&self, data: Seq<u8>) -> (Self, Option<TabletDataView>) {
        (*self, xp_pen_deco03_report(data))
    }

    fn parse(&mut self, data: &[u8]) -> (r: Option<TabletData>) {
        if data.len() < 2 {
            return None;
        }
        let raw = hex_dump_all(data);
        if data[1] == 0xF0 {
            return parse_aux(data, raw, 2);
        }
        if (data[1] & 0x10) != 0 {
            return parse_aux(data, raw, 2);
        }
        standard_parse(data)
    }
}

impl ReportParser for XpPenOffsetPressureParser {
    open spec fn step(&self, data: Seq<u8>) -> (Self, Option<TabletDataView>) {
        (*self, xp_pen_offset_pressure_report(data))
    }

    fn parse(&mut self, data: &[u8]) -> (r: Option<TabletData>) {
        if data.len() < 2 {
            return None;
        }
        let raw = hex_dump_all(data);
        if (data[1] & 0x10) != 0 {
            return parse_aux(data, raw, 2);
        }
        if data.len() >= 10 {
            parse_offset_pressure(data, raw, true)
        } else {
            parse_offset_pressure(data, raw, false)
        }
    }
}

impl ReportParser for XpPenOffsetAuxParser {
    open spec fn step(&self, data: Seq<u8>) -> (Self, Option<TabletDataView>) {
        (*self, xp_pen_offset_aux_report(data))
    }

    fn parse(&mut self, data: &[u8]) -> (r: Option<TabletData>) {
        if data.len() < 2 {
            return None;
        }
        let raw = hex_dump_all(data);
        if (data[1] & 0x20) != 0 {
            return parse_aux(data, raw, 4);
        }
        standard_parse(data)
    }
}

impl ReportParser for XpPenParser {
    open spec fn step(&self, data: Seq<u8>) -> (Self, Option<TabletDataView>) {
        (*self, xp_pen_report(data))
    }

    fn parse(&mut self, data: &[u8]) -> (r: Option<TabletData>) {
        if data.len() < 2 {
            return None;
        }
        let raw = hex_dump_all(data);
        if (data[1] & 0x10) != 0 {
            return parse_aux(data, raw, 2);
        }
        standard_parse(data)
    }
}

} // verus!
