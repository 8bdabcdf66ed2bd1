//! Wacom Intuos V1: pen, rotation, tool and aux reports; rotation reports repeat the last pen values.
use crate::parsers::ReportParser;
use crate::report::{
    rotation_status, status_rotation, status_tool, tool_status, aux_report, aux_view, be16,
    bit_flag, contact_or_hover, flag, has_bits, hex_dump, hex_dump_all, pen_report, pen_view,
    read_le16, report_view, status_contact_or_hover, TabletData, TabletDataView,
};
use vstd::prelude::*;
use vstd::slice::slice_subrange;

verus! {

/// Keeps the pen values of the last pen report, which rotation reports repeat.
pub struct IntuosV1Parser {
    pub prev_pressure: u16,
    pub prev_tilt_x: i8,
    pub prev_tilt_y: i8,
    pub prev_buttons: u8,
}

/// A parser that has seen no pen report: all remembered values are 0.
pub open spec fn intuos_v1_initial() -> IntuosV1Parser {
    IntuosV1Parser { prev_pressure: 0, prev_tilt_x: 0, prev_tilt_y: 0, prev_buttons: 0 }
}

impl IntuosV1Parser {
    pub fn new() -> (p: Self)
        ensures
            p == intuos_v1_initial(),
    {
        Self { prev_pressure: 0, prev_tilt_x: 0, prev_tilt_y: 0, prev_buttons: 0 }
    }
}

/// A 16-bit big-endian coordinate shifted left by one (its top bit falls
/// off) with a low bit taken from another byte.
pub open spec fn intuos_coord(hi: u8, lo: u8, low_bit: u8) -> u16 {
    ((2 * be16(hi, lo) + low_bit) % 65536) as u16
}

pub fn read_intuos_coord(hi: u8, lo: u8, low_bit: u8) -> (r: u16)
    requires
        low_bit <= 1,
    ensures
        r == intuos_coord(hi, lo, low_bit),
{
    let v = read_le16(lo, hi);
    ((v as u32 * 2 + low_bit as u32) % 65536) as u16
}

/// The x coordinate of an Intuos pen or mouse report: bytes 2 and 3, low bit from byte 9 bit 1.
pub open spec fn intuos_x(d: Seq<u8>) -> u16
    recommends
        d.len() >= 10,
{
    intuos_coord(d[2], d[3], (d[9] >> 1u8) & 1u8)
}

/// The y coordinate of an Intuos pen or mouse report: bytes 4 and 5, low bit from byte 9 bit 0.
pub open spec fn intuos_y(d: Seq<u8>) -> u16
    recommends
        d.len() >= 10,
{
    intuos_coord(d[4], d[5], d[9] & 1u8)
}

pub fn read_intuos_xy(data: &[u8]) -> (r: (u16, u16))
    requires
        data@.len() >= 10,
    ensures
        r.0 == intuos_x(data@),
        r.1 == intuos_y(data@),
{
    let b9 = data[9];
    let bx = (b9 >> 1u8) & 1u8;
    let by = b9 & 1u8;
    assert(bx <= 1 && by <= 1) by (bit_vector)
        requires
            bx == (b9 >> 1u8) & 1u8,
            by == b9 & 1u8,
    ;
    (read_intuos_coord(data[2], data[3], bx), read_intuos_coord(data[4], data[5], by))
}

/// The 7-bit tilt in bits 0..5 of byte 7 and bit 7 of byte 8, centred on 64.
pub open spec fn intuos_v1_tilt_x(b7: u8, b8: u8) -> i8 {
    ((((b7 << 1u8) & 0x7Eu8) | (b8 >> 7u8)) - 64) as i8
}

/// The 7-bit tilt in bits 0..6 of byte 8, centred on 64.
pub open spec fn intuos_v1_tilt_y(b8: u8) -> i8 {
    ((b8 & 0x7Fu8) - 64) as i8
}

/// The 11-bit pressure: byte 6, bits 6 and 7 of byte 7, bit 0 of byte 1.
pub open spec fn intuos_v1_pressure(b1: u8, b6: u8, b7: u8) -> u16 {
    (8 * b6 + ((b7 & 0xC0u8) >> 5u8) + (b1 & 1u8)) as u16
}

/// A pen, rotation or tool report (10 bytes or more). Status 0x80, and
/// report 0x10 with status 0x20, are out of range. Bit 0x20 marks a pen
/// report, which also becomes the remembered pen state; bits 0x02 and 0x08
/// together a rotation report, which repeats the remembered pen values;
/// status 0xC2 a tool report, whose byte 3 bit 7 marks the eraser.
pub open spec fn intuos_v1_tool(p: IntuosV1Parser, d: Seq<u8>, raw: Seq<char>) -> (
    IntuosV1Parser,
    Option<TabletDataView>,
) {
    if d.len() < 10 || (d[0] == 0x10 && d[1] == 0x20) || d[1] == 0x80 {
        (p, None)
    } else if has_bits(d[1], 0x20) {
        let pressure = intuos_v1_pressure(d[1], d[6], d[7]);
        let tilt_x = intuos_v1_tilt_x(d[7], d[8]);
        let tilt_y = intuos_v1_tilt_y(d[8]);
        let buttons = (flag(has_bits(d[1], 0x02), 1) + flag(has_bits(d[1], 0x04), 2)) as u8;
        (
            IntuosV1Parser {
                prev_pressure: pressure,
                prev_tilt_x: tilt_x,
                prev_tilt_y: tilt_y,
                prev_buttons: buttons,
            },
            Some(
                pen_view(
                    contact_or_hover(pressure as int),
                    intuos_x(d),
                    intuos_y(d),
                    pressure,
                    tilt_x,
                    tilt_y,
                    buttons,
                    false,
                    d[9],
                    raw,
                ),
            ),
        )
    } else if has_bits(d[1], 0x02) && has_bits(d[1], 0x08) {
        (
            p,
            Some(
                pen_view(
                    rotation_status(),
                    intuos_x(d),
                    intuos_y(d),
                    p.prev_pressure,
                    p.prev_tilt_x,
                    p.prev_tilt_y,
                    p.prev_buttons,
                    false,
                    d[9],
                    raw,
                ),
            ),
        )
    } else if d[1] == 0xC2 {
        (p, Some(pen_view(tool_status(), 0, 0, 0, 0, 0, 0, has_bits(d[3], 0x80), 0, raw)))
    } else {
        (p, None)
    }
}

/// An aux report (5 bytes or more) with the keys in byte 4.
pub open spec fn intuos_v1_aux(d: Seq<u8>, raw: Seq<char>) -> Option<TabletDataView> {
    if d.len() < 5 {
        None
    } else {
        Some(aux_view(d[4], raw))
    }
}

/// Reports 0x02 and 0x10 are pen, rotation or tool reports, 0x03 aux reports.
pub open spec fn intuos_v1_internal(p: IntuosV1Parser, d: Seq<u8>, raw: Seq<char>) -> (
    IntuosV1Parser,
    Option<TabletDataView>,
)
    recommends
        d.len() >= 1,
{
    if d[0] == 0x02 || d[0] == 0x10 {
        intuos_v1_tool(p, d, raw)
    } else if d[0] == 0x03 {
        (p, intuos_v1_aux(d, raw))
    } else {
        (p, None)
    }
}

impl IntuosV1Parser {
    pub fn parse_internal(&mut self, data: &[u8], raw: String) -> (r: Option<TabletData>)
        requires
            data@.len() >= 1,
        ensures
            (*final(self), report_view(r)) == intuos_v1_internal(*old(self), data@, raw@),
    {
        if data[0] == 0x02 || data[0] == 0x10 {
            self.parse_tool(data, raw)
        } else if data[0] == 0x03 {
            self.parse_aux(data, raw)
        } else {
            None
        }
    }

    pub fn parse_tool(&mut self, data: &[u8], raw: String) -> (r: Option<TabletData>)
        ensures
            (*final(self), report_view(r)) == intuos_v1_tool(*old(self), data@, raw@),
    {
        if data.len() < 10 {
            return None;
        }
        if data[0] == 0x10 && data[1] == 0x20 {
            return None;
        }
        if data[1] == 0x80 {
            return None;
        }
        let s = data[1];
        let is_rotation = (s & 0x02) != 0 && (s & 0x08) != 0;
        let is_tablet = (s & 0x20) != 0;
        if is_tablet {
            let (x, y) = read_intuos_xy(data);
            let t: u8 = ((data[7] << 1u8) & 0x7Eu8) | (data[8] >> 7u8);
            let tilt_x = (t as i16 - 64) as i8;
            let tilt_y = ((data[8] & 0x7Fu8) as i16 - 64) as i8;
            let pressure = (data[6] as u16) * 8 + (((data[7] & 0xC0u8) >> 5u8) as u16) + ((s
                & 1u8) as u16);
            let buttons = bit_flag(s, 0x02, 1) + bit_flag(s, 0x04, 2);
            self.prev_pressure = pressure;
            self.prev_tilt_x = tilt_x;
            self.prev_tilt_y = tilt_y;
            self.prev_buttons = buttons;
            Some(
                pen_report(
                    status_contact_or_hover(pressure),
                    x,
                    y,
                    pressure,
                    tilt_x,
                    tilt_y,
                    buttons,
                    false,
                    data[9],
                    raw,
                ),
            )
        } else if is_rotation {
            let (x, y) = read_intuos_xy(data);
            Some(
                pen_report(
                    status_rotation(),
                    x,
                    y,
                    self.prev_pressure,
                    self.prev_tilt_x,
                    self.prev_tilt_y,
                    self.prev_buttons,
                    false,
                    data[9],
                    raw,
                ),
            )
        } else if s == 0xC2 {
            Some(pen_report(status_tool(), 0, 0, 0, 0, 0, 0, (data[3] & 0x80) != 0, 0, raw))
        } else {
            None
        }
    }

    pub fn parse_aux(&self, data: &[u8], raw: String) -> (r: Option<TabletData>)
        ensures
            report_view(r) == intuos_v1_aux(data@, raw@),
    {
        if data.len() < 5 {
            return None;
        }
        Some(aux_report(data[4], raw))
    }
}

impl ReportParser for IntuosV1Parser {
    open spec fn step(&self, data: Seq<u8>) -> (Self, Option<TabletDataView>) {
        if data.len() == 0 {
            (*self, None)
        } else {
            intuos_v1_internal(*self, data, hex_dump(data))
        }
    }

    fn parse(&mut self, data: &[u8]) -> (r: Option<TabletData>) {
        if data.len() == 0 {
            return None;
        }
        let raw = hex_dump_all(data);
        self.parse_internal(data, raw)
    }
}

/// The Wacom driver layout: a leading byte, then an Intuos V1 report read
/// without it; the dump covers the whole packet.
pub struct WacomDriverIntuosV1Parser {
    pub inner: IntuosV1Parser,
}

impl WacomDriverIntuosV1Parser {
    pub fn new() -> (p: Self)
        ensures
            p.inner == intuos_v1_initial(),
    {
        Self { inner: IntuosV1Parser::new() }
    }
}

impl ReportParser for WacomDriverIntuosV1Parser {
    open spec fn step(&self, data: Seq<u8>) -> (Self, Option<TabletDataView>) {
        if data.len() < 2 {
            (*self, None)
        } else {
            let (inner, r) = intuos_v1_internal(self.inner, data.skip(1), hex_dump(data));
            (WacomDriverIntuosV1Parser { inner }, r)
        }
    }

    fn parse(&mut self, data: &[u8]) -> (r: Option<TabletData>) {
        if data.len() < 2 {
            return None;
        }
        let raw = hex_dump_all(data);
        let rest = slice_subrange(data, 1, data.len());
        assert(rest@ =~= data@.skip(1));
        self.inner.parse_internal(rest, raw)
    }
}

} // verus!
