//! Wacom Intuos V3 (CTL-x100 generation).
use crate::parsers::ReportParser;
use crate::report::{
    aux_report, aux_view, bit_flag, contact_or_hover, flag, has_bits, hex_dump, hex_dump_all, le16,
    pen_report, pen_view, read_le16, report_view, signed8, status_contact_or_hover, to_i8,
    TabletData, TabletDataView,
};
use vstd::prelude::*;
use vstd::slice::slice_subrange;

verus! {

pub struct IntuosV3Parser;

/// A tilt byte: values with bit 7 set count down from 0xFF (0xFF is 0, 0x80 is -127).
pub open spec fn intuos_v3_tilt(b: u8) -> i8 {
    if has_bits(b, 0x80) {
        (b - 0xFF) as i8
    } else {
        b as i8
    }
}

pub fn read_intuos_v3_tilt(b: u8) -> (r: i8)
    ensures
        r == intuos_v3_tilt(b),
{
    if (b & 0x80) != 0 {
        (b as i16 - 0xFF) as i8
    } else {
        b as i8
    }
}

/// A pen report (report 0x1F with byte 1 equal to 1, 14 bytes):
/// little-endian position and pressure at 3..9, tilt at 9 and 11, pen
/// buttons 0x02 and 0x04 and eraser 0x20 in byte 2, hover distance in byte 13.
pub open spec fn intuos_v3_tablet(d: Seq<u8>, raw: Seq<char>) -> Option<TabletDataView> {
    if d.len() < 14 {
        None
    } else {
        let pressure = le16(d[7], d[8]);
        Some(
            pen_view(
                contact_or_hover(pressure as int),
                le16(d[3], d[4]),
                le16(d[5], d[6]),
                pressure,
                intuos_v3_tilt(d[9]),
                intuos_v3_tilt(d[11]),
                (flag(has_bits(d[2], 0x02), 1) + flag(has_bits(d[2], 0x04), 2)) as u8,
                has_bits(d[2], 0x20),
                d[13],
                raw,
            ),
        )
    }
}

/// An extended pen report (report 0x1E, 20 bytes): 24-bit little-endian x
/// at 3..6 and y at 6..9 (limited to 0xFFFF), pressure at 9..11, 16-bit
/// tilts at 11 and 13 of which the low byte is kept as a signed value, pen
/// buttons 0x02, 0x04 and 0x08 and eraser 0x20 in byte 2, hover distance in
/// byte 19.
pub open spec fn intuos_v3_extended(d: Seq<u8>, raw: Seq<char>) -> Option<TabletDataView> {
    if d.len() < 20 {
        None
    } else {
        let pressure = le16(d[9], d[10]);
        Some(
            pen_view(
                contact_or_hover(pressure as int),
                if d[5] != 0 {
                    0xFFFF
                } else {
                    le16(d[3], d[4])
                },
                if d[8] != 0 {
                    0xFFFF
                } else {
                    le16(d[6], d[7])
                },
                pressure,
                signed8(d[11]),
                signed8(d[13]),
                (flag(has_bits(d[2], 0x02), 1) + flag(has_bits(d[2], 0x04), 2) + flag(
                    has_bits(d[2], 0x08),
                    4,
                )) as u8,
                has_bits(d[2], 0x20),
                d[19],
                raw,
            ),
        )
    }
}

/// An aux report (4 bytes or more): keys 0..3 in the low bits of byte 1,
/// key 4 in bit 0 of byte 3, keys 5..7 in bits 4..6 of byte 1.
pub open spec fn intuos_v3_aux(d: Seq<u8>, raw: Seq<char>) -> Option<TabletDataView> {
    if d.len() < 4 {
        None
    } else {
        let b1 = d[1];
        Some(
            aux_view(
                (flag(has_bits(b1, 1), 1) + flag(has_bits(b1, 2), 2) + flag(has_bits(b1, 4), 4)
                    + flag(has_bits(b1, 8), 8) + flag(has_bits(d[3], 1), 16) + flag(
                    has_bits(b1, 16),
                    32,
                ) + flag(has_bits(b1, 32), 64) + flag(has_bits(b1, 64), 128)) as u8,
                raw,
            ),
        )
    }
}

/// Report 0x11 is an aux report, 0x1E an extended pen report, 0x1F with
/// byte 1 equal to 1 a pen report.
pub open spec fn intuos_v3_internal(d: Seq<u8>, raw: Seq<char>) -> Option<TabletDataView>
    recommends
        d.len() >= 1,
{
    if d[0] == 0x11 {
        intuos_v3_aux(d, raw)
    } else if d[0] == 0x1E {
        intuos_v3_extended(d, raw)
    } else if d[0] == 0x1F && d.len() > 1 && d[1] == 0x01 {
        intuos_v3_tablet(d, raw)
    } else {
        None
    }
}

impl IntuosV3Parser {
    pub fn new() -> Self {
        Self
    }

    fn parse_internal(&self, data: &[u8], raw: String) -> (r: Option<TabletData>)
        requires
            data@.len() >= 1,
        ensures
            report_view(r) == intuos_v3_internal(data@, raw@),
    {
        if data[0] == 0x11 {
            self.parse_aux(data, raw)
        } else if data[0] == 0x1E {
            self.parse_extended(data, raw)
        } else if data[0] == 0x1F && data.len() > 1 && data[1] == 0x01 {
            self.parse_tablet(data, raw)
        } else {
            None
        }
    }

    fn parse_tablet(&self, data: &[u8], raw: String) -> (r: Option<TabletData>)
        ensures
            report_view(r) == intuos_v3_tablet(data@, raw@),
    {
        if data.len() < 14 {
            return None;
        }
        let pressure = read_le16(data[7], data[8]);
        let buttons = bit_flag(data[2], 0x02, 1) + bit_flag(data[2], 0x04, 2);
        Some(
            pen_report(
                status_contact_or_hover(pressure),
                read_le16(data[3], data[4]),
                read_le16(data[5], data[6]),
                pressure,
                read_intuos_v3_tilt(data[9]),
                read_intuos_v3_tilt(data[11]),
                buttons,
                (data[2] & 0x20) != 0,
                data[13],
                raw,
            ),
        )
    }

    fn parse_extended(&self, data: &[u8], raw: String) -> (r: Option<TabletData>)
        ensures
            report_view(r) == intuos_v3_extended(data@, raw@),
    {
        if data.len() < 20 {
            return None;
        }
        let x: u16 = if data[5] != 0 {
            0xFFFF
        } else {
            read_le16(data[3], data[4])
        };
        let y: u16 = if data[8] != 0 {
            0xFFFF
        } else {
            read_le16(data[6], data[7])
        };
        let pressure = read_le16(data[9], data[10]);
        let buttons = bit_flag(data[2], 0x02, 1) + bit_flag(data[2], 0x04, 2) + bit_flag(
            data[2],
            0x08,
            4,
        );
        Some(
            pen_report(
                status_contact_or_hover(pressure),
                x,
                y,
                pressure,
                to_i8(data[11]),
                to_i8(data[13]),
                buttons,
                (data[2] & 0x20) != 0,
                data[19],
                raw,
            ),
        )
    }

    fn parse_aux(&self, data: &[u8], raw: String) -> (r: Option<TabletData>)
        ensures
            report_view(r) == intuos_v3_aux(data@, raw@),
    {
        if data.len() < 4 {
            return None;
        }
        let b1 = data[1];
        let b2 = data[3];
        let buttons = bit_flag(b1, 1, 1) + bit_flag(b1, 2, 2) + bit_flag(b1, 4, 4) + bit_flag(
            b1,
            8,
            8,
        ) + bit_flag(b2, 1, 16) + bit_flag(b1, 16, 32) + bit_flag(b1, 32, 64) + bit_flag(
            b1,
            64,
            128,
        );
        Some(aux_report(buttons, raw))
    }
}

impl ReportParser for IntuosV3Parser {
    open spec fn step(&self, data: Seq<u8>) -> (Self, Option<TabletDataView>) {
        if data.len() == 0 {
            (*self, None)
        } else {
            (*self, intuos_v3_internal(data, hex_dump(data)))
        }
    }

    fn parse(&mut self, data: &[u8]) -> (r: Option<TabletData>) {
        if data.len() == 0 {
            return None;
        }
        let raw = hex_dump_all(data);
        self.parse_internal(data, raw)
    }
}

/// The Wacom driver layout: a leading byte, then an Intuos V3 report read
/// without it; the dump covers the whole packet.
pub struct WacomDriverIntuosV3Parser {
    pub inner: IntuosV3Parser,
}

impl WacomDriverIntuosV3Parser {
    pub fn new() -> Self {
        Self { inner: IntuosV3Parser::new() }
    }
}

impl ReportParser for WacomDriverIntuosV3Parser {
    open spec fn step(&self, data: Seq<u8>) -> (Self, Option<TabletDataView>) {
        if data.len() < 2 {
            (*self, None)
        } else {
            (*self, intuos_v3_internal(data.skip(1), hex_dump(data)))
        }
    }

    fn parse(&mut self, data: &[u8]) -> (r: Option<TabletData>) {
        if data.len() < 2 {
            return None;
        }
        let raw = hex_dump_all(data);
        let rest = slice_subrange(data, 1, data.len());
        assert(rest@ =~= data@.skip(1));
        self.inner.parse_internal(rest, raw)
    }
}

} // verus!
