//! Wacom Intuos 4: Intuos V1 reports plus puck (mouse) and express-key reports.
use crate::parsers::ReportParser;
use crate::report::{
    aux_report, aux_view, bit_flag, flag, has_bits, hex_dump, hex_dump_all, mouse_report,
    mouse_view, report_view, TabletData, TabletDataView,
};
use vstd::prelude::*;
use crate::parsers::wacom::intuos_v1::{
    intuos_v1_initial, intuos_v1_internal, intuos_x, intuos_y, read_intuos_xy, IntuosV1Parser,
};
use vstd::slice::slice_subrange;

verus! {

pub struct Intuos4Parser {
    pub inner_v1: IntuosV1Parser,
}

/// A puck report (10 bytes or more): the Intuos coordinates and five buttons
/// from bits 0x01, 0x04, 0x02, 0x08 and 0x10 of byte 6.
pub open spec fn intuos4_mouse(d: Seq<u8>, raw: Seq<char>) -> Option<TabletDataView> {
    if d.len() < 10 {
        None
    } else {
        Some(
            mouse_view(
                intuos_x(d),
                intuos_y(d),
                (flag(has_bits(d[6], 0x01), 1) + flag(has_bits(d[6], 0x04), 2) + flag(
                    has_bits(d[6], 0x02),
                    4,
                ) + flag(has_bits(d[6], 0x08), 8) + flag(has_bits(d[6], 0x10), 16)) as u8,
                raw,
            ),
        )
    }
}

/// An express-key report (4 bytes or more) with the keys in byte 3.
pub open spec fn intuos4_aux(d: Seq<u8>, raw: Seq<char>) -> Option<TabletDataView> {
    if d.len() < 4 {
        None
    } else {
        Some(aux_view(d[3], raw))
    }
}

/// Report 2 with status 0xEC or 0xAC is a puck report, any other report 2
/// and report 0x10 an Intuos V1 report, 0x0C an express-key report.
pub open spec fn intuos4_internal(p: Intuos4Parser, d: Seq<u8>, raw: Seq<char>) -> (
    Intuos4Parser,
    Option<TabletDataView>,
)
    recommends
        d.len() >= 1,
{
    if d.len() < 2 && d[0] == 0x02 {
        (p, None)
    } else if d[0] == 0x02 && (d[1] == 0xEC || d[1] == 0xAC) {
        (p, intuos4_mouse(d, raw))
    } else if d[0] == 0x02 || d[0] == 0x10 {
        let (v1, r) = intuos_v1_internal(p.inner_v1, d, raw);
        (Intuos4Parser { inner_v1: v1 }, r)
    } else if d[0] == 0x0C {
        (p, intuos4_aux(d, raw))
    } else {
        (p, None)
    }
}

impl Intuos4Parser {
    pub fn new() -> (p: Self)
        ensures
            p.inner_v1 == intuos_v1_initial(),
    {
        Self { inner_v1: IntuosV1Parser::new() }
    }

    fn parse_internal(&mut self, data: &[u8], raw: String) -> (r: Option<TabletData>)
        requires
            data@.len() >= 1,
        ensures
            (*final(self), report_view(r)) == intuos4_internal(*old(self), data@, raw@),
    {
        if data[0] == 0x02 && data.len() < 2 {
            return None;
        }
        if data[0] == 0x02 {
            if data[1] == 0xEC || data[1] == 0xAC {
                self.parse_mouse(data, raw)
            } else {
                self.inner_v1.parse_internal(data, raw)
            }
        } else if data[0] == 0x10 {
            self.inner_v1.parse_internal(data, raw)
        } else if data[0] == 0x0C {
            self.parse_aux(data, raw)
        } else {
            None
        }
    }

    fn parse_mouse(&self, data: &[u8], raw: String) -> (r: Option<TabletData>)
        ensures
            report_view(r) == intuos4_mouse(data@, raw@),
    {
        if data.len() < 10 {
            return None;
        }
        let (x, y) = read_intuos_xy(data);
        let b6 = data[6];
        let buttons = bit_flag(b6, 0x01, 1) + bit_flag(b6, 0x04, 2) + bit_flag(b6, 0x02, 4)
            + bit_flag(b6, 0x08, 8) + bit_flag(b6, 0x10, 16);
        Some(mouse_report(x, y, buttons, raw))
    }

    fn parse_aux(&self, data: &[u8], raw: String) -> (r: Option<TabletData>)
        ensures
            report_view(r) == intuos4_aux(data@, raw@),
    {
        if data.len() < 4 {
            return None;
        }
        Some(aux_report(data[3], raw))
    }
}

impl ReportParser for Intuos4Parser {
    open spec fn step(&self, data: Seq<u8>) -> (Self, Option<TabletDataView>) {
        if data.len() == 0 {
            (*self, None)
        } else {
            intuos4_internal(*self, data, hex_dump(data))
        }
    }

    fn parse(&mut self, data: &[u8]) -> (r: Option<TabletData>) {
        if data.len() == 0 {
            return None;
        }
        let raw = hex_dump_all(data);
        self.parse_internal(data, raw)
    }
}

/// The Wacom driver layout: a leading byte, then an Intuos 4 report read
/// without it; the dump covers the whole packet.
pub struct WacomDriverIntuos4Parser {
    pub inner: Intuos4Parser,
}

impl WacomDriverIntuos4Parser {
    pub fn new() -> (p: Self)
        ensures
            p.inner.inner_v1 == intuos_v1_initial(),
    {
        Self { inner: Intuos4Parser::new() }
    }
}

impl ReportParser for WacomDriverIntuos4Parser {
    open spec fn step(&self, data: Seq<u8>) -> (Self, Option<TabletDataView>) {
        if data.len() < 2 {
            (*self, None)
        } else {
            let (inner, r) = intuos4_internal(self.inner, data.skip(1), hex_dump(data));
            (WacomDriverIntuos4Parser { inner }, r)
        }
    }

    fn parse(&mut self, data: &[u8]) -> (r: Option<TabletData>) {
        if data.len() < 2 {
            return None;
        }
        let raw = hex_dump_all(data);
        let rest = slice_subrange(data, 1, data.len());
        assert(rest@ =~= data@.skip(1));
        self.inner.parse_internal(rest, raw)
    }
}

} // verus!
