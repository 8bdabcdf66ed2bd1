//! Wacom Intuos V2 (CTL-x90 generation).
use crate::parsers::ReportParser;
use crate::report::{
    aux_report, aux_view, bit_flag, contact_or_hover, flag, has_bits, hex_dump, hex_dump_all, le16,
    pen_report, pen_view, read_le16, report_view, signed8, status_contact_or_hover, to_i8,
    TabletData, TabletDataView,
};
use vstd::prelude::*;
use vstd::slice::slice_subrange;

verus! {

pub struct IntuosV2Parser;

impl IntuosV2Parser {
    pub fn new() -> Self {
        Self
    }
}

impl Default for IntuosV2Parser {
    fn default() -> Self {
        Self::new()
    }
}

/// A coordinate made of a low byte and a byte of bits 16..23, limited to 0xFFFF.
pub open spec fn clamp_split_coordinate(low: u8, high: u8) -> u16 {
    if high != 0 {
        0xFFFF
    } else {
        low as u16
    }
}

/// A pen report. Without offset (report 0x10, 17 bytes): x from bytes 2 and
/// 4, y from 5 and 7, pressure at 8..10, signed tilt at 10 and 11, status in
/// byte 1, hover distance in byte 16. With offset (report 0x1E, 13 bytes):
/// x from 3 and 5, y from 6 and 8, pressure at 9..11, tilt at 11 and 12,
/// status in byte 2 with a third pen button (0x08), hover distance in byte
/// 11. Pen buttons 0x02 and 0x04, eraser 0x10.
pub open spec fn intuos_v2_tablet(d: Seq<u8>, raw: Seq<char>, offset: bool) -> Option<
    TabletDataView,
> {
    if d.len() < (if offset {
        13int
    } else {
        17int
    }) {
        None
    } else {
        let o: int = if offset {
            1
        } else {
            0
        };
        let btn = d[1 + o];
        let pressure = le16(d[8 + o], d[9 + o]);
        Some(
            pen_view(
                contact_or_hover(pressure as int),
                clamp_split_coordinate(d[2 + o], d[4 + o]),
                clamp_split_coordinate(d[5 + o], d[7 + o]),
                pressure,
                signed8(d[10 + o]),
                signed8(d[11 + o]),
                (flag(has_bits(btn, 0x02), 1) + flag(has_bits(btn, 0x04), 2) + flag(
                    offset && has_bits(btn, 0x08),
                    4,
                )) as u8,
                has_bits(btn, 0x10),
                if offset {
                    d[11]
                } else {
                    d[16]
                },
                raw,
            ),
        )
    }
}

/// An aux report with the keys in byte 1.
pub open spec fn intuos_v2_aux(d: Seq<u8>, raw: Seq<char>) -> Option<TabletDataView> {
    if d.len() < 2 {
        None
    } else {
        Some(aux_view(d[1], raw))
    }
}

/// Report 0x10 is a pen report, 0x1E a pen report with offset, 0x11 an aux report.
pub open spec fn intuos_v2_internal(d: Seq<u8>, raw: Seq<char>) -> Option<TabletDataView>
    recommends
        d.len() >= 1,
{
    if d[0] == 0x10 {
        intuos_v2_tablet(d, raw, false)
    } else if d[0] == 0x1E {
        intuos_v2_tablet(d, raw, true)
    } else if d[0] == 0x11 {
        intuos_v2_aux(d, raw)
    } else {
        None
    }
}

impl IntuosV2Parser {
    fn parse_internal(&self, data: &[u8], raw: String) -> (r: Option<TabletData>)
        requires
            data@.len() >= 1,
        ensures
            report_view(r) == intuos_v2_internal(data@, raw@),
    {
        if data[0] == 0x10 {
            self.parse_tablet(data, raw, false)
        } else if data[0] == 0x1E {
            self.parse_tablet(data, raw, true)
        } else if data[0] == 0x11 {
            self.parse_aux(data, raw)
        } else {
            None
        }
    }

    fn parse_tablet(&self, data: &[u8], raw: String, offset: bool) -> (r: Option<TabletData>)
        ensures
            report_view(r) == intuos_v2_tablet(data@, raw@, offset),
    {
        let min_len: usize = if offset {
            13
        } else {
            17
        };
        if data.len() < min_len {
            return None;
        }
        let o: usize = if offset {
            1
        } else {
            0
        };
        let btn = data[1 + o];
        let x: u16 = if data[4 + o] != 0 {
            0xFFFF
        } else {
            data[2 + o] as u16
        };
        let y: u16 = if data[7 + o] != 0 {
            0xFFFF
        } else {
            data[5 + o] as u16
        };
        let pressure = read_le16(data[8 + o], data[9 + o]);
        let mut buttons = bit_flag(btn, 0x02, 1) + bit_flag(btn, 0x04, 2);
        if offset && (btn & 0x08) != 0 {
            buttons = buttons + 4;
        }
        let hover_distance = if offset {
            data[11]
        } else {
            data[16]
        };
        Some(
            pen_report(
                status_contact_or_hover(pressure),
                x,
                y,
                pressure,
                to_i8(data[10 + o]),
                to_i8(data[11 + o]),
                buttons,
                (btn & 0x10) != 0,
                hover_distance,
                raw,
            ),
        )
    }

    fn parse_aux(&self, data: &[u8], raw: String) -> (r: Option<TabletData>)
        ensures
            report_view(r) == intuos_v2_aux(data@, raw@),
    {
        if data.len() < 2 {
            return None;
        }
        Some(aux_report(data[1], raw))
    }
}

impl ReportParser for IntuosV2Parser {
    open spec fn step(&self, data: Seq<u8>) -> (Self, Option<TabletDataView>) {
        if data.len() == 0 {
            (*self, None)
        } else {
            (*self, intuos_v2_internal(data, hex_dump(data)))
        }
    }

    fn parse(&mut self, data: &[u8]) -> (r: Option<TabletData>) {
        if data.len() == 0 {
            return None;
        }
        let raw = hex_dump_all(data);
        self.parse_internal(data, raw)
    }
}

/// The Wacom driver layout: a leading byte, then an Intuos V2 report read
/// without it; the dump covers the whole packet.
pub struct WacomDriverIntuosV2Parser {
    pub inner: IntuosV2Parser,
}

impl WacomDriverIntuosV2Parser {
    pub fn new() -> Self {
        Self { inner: IntuosV2Parser::new() }
    }
}

impl Default for WacomDriverIntuosV2Parser {
    fn default() -> Self {
        Self::new()
    }
}

impl ReportParser for WacomDriverIntuosV2Parser {
    open spec fn step(&self, data: Seq<u8>) -> (Self, Option<TabletDataView>) {
        if data.len() < 2 {
            (*self, None)
        } else {
            (*self, intuos_v2_internal(data.skip(1), hex_dump(data)))
        }
    }

    fn parse(&mut self, data: &[u8]) -> (r: Option<TabletData>) {
        if data.len() < 2 {
            return None;
        }
        let raw = hex_dump_all(data);
        let rest = slice_subrange(data, 1, data.len());
        assert(rest@ =~= data@.skip(1));
        self.inner.parse_internal(rest, raw)
    }
}

} // verus!
