//! UC-Logic based tablets (Huion, Gaomon and relatives).
use crate::parsers::ReportParser;
use crate::report::{
    aux_report, aux_view, bit_flag, contact_or_hover, flag, has_bits, hex_dump, hex_dump_all, le16,
    pen_report, pen_view, read_le16, report_view, signed8, status_contact_or_hover, to_i8,
    TabletData, TabletDataView,
};
use vstd::prelude::*;

verus! {

pub struct UCLogicParser;

pub struct UCLogicV1Parser;

pub struct UCLogicV2Parser;

pub struct UCLogicTiltParser;

/// An aux report: the first eight keys are in byte 4 (packets of 7 bytes or more).
pub open spec fn uclogic_aux_report(d: Seq<u8>) -> Option<TabletDataView> {
    if d.len() < 7 {
        None
    } else {
        Some(aux_view(d[4], hex_dump(d)))
    }
}

/// A pen report (8 bytes or more): little-endian position and pressure at
/// 2..8, pen buttons in bits 0..2 of byte 1, bit 2 also marking the eraser;
/// with tilt, signed tilt bytes at 10 and 11 when the packet has 12 bytes.
pub open spec fn uclogic_tablet_report(d: Seq<u8>, has_tilt: bool) -> Option<TabletDataView> {
    if d.len() < 8 {
        None
    } else {
        let pressure = le16(d[6], d[7]);
        let tilt = has_tilt && d.len() >= 12;
        Some(
            pen_view(
                contact_or_hover(pressure as int),
                le16(d[2], d[3]),
                le16(d[4], d[5]),
                pressure,
                if tilt {
                    signed8(d[10])
                } else {
                    0
                },
                if tilt {
                    signed8(d[11])
                } else {
                    0
                },
                (flag(has_bits(d[1], 0x01), 1) + flag(has_bits(d[1], 0x02), 2) + flag(
                    has_bits(d[1], 0x04),
                    4,
                )) as u8,
                has_bits(d[1], 0x04),
                0,
                hex_dump(d),
            ),
        )
    }
}

/// Status 0xC0 is out of range, bit 0x40 an aux report, anything else a pen report.
pub open spec fn uclogic_report(d: Seq<u8>) -> Option<TabletDataView> {
    if d.len() < 2 || d[1] == 0xC0 {
        None
    } else if has_bits(d[1], 0x40) {
        uclogic_aux_report(d)
    } else {
        uclogic_tablet_report(d, false)
    }
}

/// Status 0xE0 is an aux report, bit 0x40 a pen report, anything else ignored.
pub open spec fn uclogic_v1_report(d: Seq<u8>) -> Option<TabletDataView> {
    if d.len() < 2 {
        None
    } else if d[1] == 0xE0 {
        uclogic_aux_report(d)
    } else if has_bits(d[1], 0x40) {
        uclogic_tablet_report(d, false)
    } else {
        None
    }
}

/// Status 0xE0 is an aux report, 0xF0 ignored, anything else a pen report with tilt.
pub open spec fn uclogic_v2_report(d: Seq<u8>) -> Option<TabletDataView> {
    if d.len() < 2 || d[1] == 0xF0 {
        None
    } else if d[1] == 0xE0 {
        uclogic_aux_report(d)
    } else {
        uclogic_tablet_report(d, true)
    }
}

/// Bit 0x40 is an aux report, anything else a pen report with tilt.
pub open spec fn uclogic_tilt_report(d: Seq<u8>) -> Option<TabletDataView> {
    if d.len() < 2 {
        None
    } else if has_bits(d[1], 0x40) {
        uclogic_aux_report(d)
    } else {
        uclogic_tablet_report(d, true)
    }
}

fn parse_uclogic_aux(data: &[u8], raw: String) -> (r: Option<TabletData>)
    requires
        raw@ == hex_dump(data@),
    ensures
        report_view(r) == uclogic_aux_report(data@),
{
    if data.len() < 7 {
        return None;
    }
    Some(aux_report(data[4], raw))
}

fn parse_uclogic_tablet(data: &[u8], raw: String, has_tilt: bool) -> (r: Option<TabletData>)
    requires
        raw@ == hex_dump(data@),
    ensures
        report_view(r) == uclogic_tablet_report(data@, has_tilt),
{
    if data.len() < 8 {
        return None;
    }
    let pressure = read_le16(data[6], data[7]);
    let buttons = bit_flag(data[1], 0x01, 1) + bit_flag(data[1], 0x02, 2) + bit_flag(
        data[1],
        0x04,
        4,
    );
    let mut tilt_x: i8 = 0;
    let mut tilt_y: i8 = 0;
    if has_tilt && data.len() >= 12 {
        tilt_x = to_i8(data[10]);
        tilt_y = to_i8(data[11]);
    }
    Some(
        pen_report(
            status_contact_or_hover(pressure),
            read_le16(data[2], data[3]),
            read_le16(data[4], data[5]),
            pressure,
            tilt_x,
            tilt_y,
            buttons,
            (data[1] & 0x04) != 0,
            0,
            raw,
        ),
    )
}

impl ReportParser for UCLogicParser {
    open spec fn step(&self, data: Seq<u8>) -> (Self, Option<TabletDataView>) {
        (*self, uclogic_report(data))
    }

    fn parse(&mut self, data: &[u8]) -> (r: Option<TabletData>) {
        if data.len() < 2 {
            return None;
        }
        let raw = hex_dump_all(data);
        if data[1] == 0xC0 {
            return None;
        }
        if (data[1] & 0x40) != 0 {
            parse_uclogic_aux(data, raw)
        } else {
            parse_uclogic_tablet(data, raw, false)
        }
    }
}

impl ReportParser for UCLogicV1Parser {
    open spec fn step(&self, data: Seq<u8>) -> (Self, Option<TabletDataView>) {
        (*self, uclogic_v1_report(data))
    }

    fn parse(&mut self, data: &[u8]) -> (r: Option<TabletData>) {
        if data.len() < 2 {
            return None;
        }
        let raw = hex_dump_all(data);
        if data[1] == 0xE0 {
            parse_uclogic_aux(data, raw)
        } else if (data[1] & 0x40) != 0 {
            parse_uclogic_tablet(data, raw, false)
        } else {
            None
        }
    }
}

impl ReportParser for UCLogicV2Parser {
    open spec fn step(&self, data: Seq<u8>) -> (Self, Option<TabletDataView>) {
        (*self, uclogic_v2_report(data))
    }

    fn parse(&mut self, data: &[u8]) -> (r: Option<TabletData>) {
        if data.len() < 2 {
            return None;
        }
        let raw = hex_dump_all(data);
        if data[1] == 0xE0 {
            parse_uclogic_aux(data, raw)
        } else if data[1] == 0xF0 {
            None
        } else {
            parse_uclogic_tablet(data, raw, true)
        }
    }
}

impl ReportParser for UCLogicTiltParser {
    open spec fn step(&self, data: Seq<u8>) -> (Self, Option<TabletDataView>) {
        (*self, uclogic_tilt_report(data))
    }

    fn parse(&mut self, data: &[u8]) -> (r: Option<TabletData>) {
        if data.len() < 2 {
            return None;
        }
        let raw = hex_dump_all(data);
        if (data[1] & 0x40) != 0 {
            parse_uclogic_aux(data, raw)
        } else {
            parse_uclogic_tablet(data, raw, true)
        }
    }
}

} // verus!
