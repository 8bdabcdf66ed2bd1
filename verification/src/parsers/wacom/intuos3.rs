//! Wacom Intuos 3: Intuos V1 reports plus puck (mouse) and express-key reports.
use crate::parsers::ReportParser;
use crate::report::{
    aux_report, aux_view, bit_flag, flag, has_bits, hex_dump, hex_dump_all, mouse_report,
    mouse_view, report_view, TabletData, TabletDataView,
};
use vstd::prelude::*;
use crate::parsers::wacom::intuos_v1::{
    intuos_v1_aux, intuos_v1_initial, intuos_v1_internal, intuos_x, intuos_y, read_intuos_xy,
    IntuosV1Parser,
};
use vstd::slice::slice_subrange;

verus! {

pub struct Intuos3Parser {
    pub inner_v1: IntuosV1Parser,
}

impl Intuos3Parser {
    pub fn new() -> (p: Self)
        ensures
            p.inner_v1 == intuos_v1_initial(),
    {
        Self { inner_v1: IntuosV1Parser::new() }
    }
}

impl Default for Intuos3Parser {
    fn default() -> (p: Self)
        ensures
            p.inner_v1 == intuos_v1_initial(),
    {
        Self::new()
    }
}

/// Status bytes 0xB0..=0xBF and 0xF0..=0xFF of report 2 are puck reports.
pub open spec fn intuos3_is_mouse(b1: u8) -> bool {
    0xF0 <= b1 || (0xB0 <= b1 && b1 <= 0xBF)
}

/// A puck report (10 bytes or more): the Intuos coordinates and five buttons
/// from bits 0x04, 0x10, 0x08, 0x20 and 0x40 of byte 8.
pub open spec fn intuos3_mouse(d: Seq<u8>, raw: Seq<char>) -> Option<TabletDataView> {
    if d.len() < 10 {
        None
    } else {
        Some(
            mouse_view(
                intuos_x(d),
                intuos_y(d),
                (flag(has_bits(d[8], 0x04), 1) + flag(has_bits(d[8], 0x10), 2) + flag(
                    has_bits(d[8], 0x08),
                    4,
                ) + flag(has_bits(d[8], 0x20), 8) + flag(has_bits(d[8], 0x40), 16)) as u8,
                raw,
            ),
        )
    }
}

/// An express-key report (7 bytes or more): four keys in the low bits of
/// byte 5, four more in the low bits of byte 6. Models with extra keys have
/// two more (bit 4 of bytes 5 and 6); they do not fit the 8-bit mask.
pub open spec fn intuos3_aux(d: Seq<u8>, raw: Seq<char>) -> Option<TabletDataView> {
    if d.len() < 7 {
        None
    } else {
        Some(aux_view(((d[5] & 0x0Fu8) + 16 * (d[6] & 0x0Fu8)) as u8, raw))
    }
}

/// Report 2 is a puck report or an Intuos V1 pen report, 0x10 an Intuos V1
/// pen report, 3 an Intuos V1 aux report, 0x0C an express-key report.
pub open spec fn intuos3_internal(p: Intuos3Parser, d: Seq<u8>, raw: Seq<char>) -> (
    Intuos3Parser,
    Option<TabletDataView>,
)
    recommends
        d.len() >= 1,
{
    if d.len() < 2 && d[0] == 0x02 {
        (p, None)
    } else if (d[0] == 0x02 && !intuos3_is_mouse(d[1])) || d[0] == 0x10 {
        let (v1, r) = intuos_v1_internal(p.inner_v1, d, raw);
        (Intuos3Parser { inner_v1: v1 }, r)
    } else if d[0] == 0x02 {
        (p, intuos3_mouse(d, raw))
    } else if d[0] == 0x03 {
        (p, intuos_v1_aux(d, raw))
    } else if d[0] == 0x0C {
        (p, intuos3_aux(d, raw))
    } else {
        (p, None)
    }
}

fn low_nibble_sum(b5: u8, b6: u8) -> (r: u8)
    ensures
        r == (b5 & 0x0Fu8) + 16 * (b6 & 0x0Fu8),
{
    let lo = b5 & 0x0Fu8;
    let hi = b6 & 0x0Fu8;
    assert(lo <= 15 && hi <= 15) by (bit_vector)
        requires
            lo == b5 & 0x0Fu8,
            hi == b6 & 0x0Fu8,
    ;
    lo + 16 * hi
}

impl Intuos3Parser {
    pub fn parse_internal(&mut self, data: &[u8], raw: String) -> (r: Option<TabletData>)
        requires
            data@.len() >= 1,
        ensures
            (*final(self), report_view(r)) == intuos3_internal(*old(self), data@, raw@),
    {
        if data[0] == 0x02 && data.len() < 2 {
            return None;
        }
        if data[0] == 0x02 {
            let b1 = data[1];
            if b1 >= 0xF0 || (b1 >= 0xB0 && b1 <= 0xBF) {
                self.parse_mouse(data, raw)
            } else {
                self.inner_v1.parse_internal(data, raw)
            }
        } else if data[0] == 0x10 {
            self.inner_v1.parse_internal(data, raw)
        } else if data[0] == 0x03 {
            self.inner_v1.parse_aux(data, raw)
        } else if data[0] == 0x0C {
            self.parse_aux(data, raw, false)
        } else {
            None
        }
    }

    fn parse_mouse(&self, data: &[u8], raw: String) -> (r: Option<TabletData>)
        ensures
            report_view(r) == intuos3_mouse(data@, raw@),
    {
        if data.len() < 10 {
            return None;
        }
        let (x, y) = read_intuos_xy(data);
        let b8 = data[8];
        let buttons = bit_flag(b8, 0x04, 1) + bit_flag(b8, 0x10, 2) + bit_flag(b8, 0x08, 4)
            + bit_flag(b8, 0x20, 8) + bit_flag(b8, 0x40, 16);
        Some(mouse_report(x, y, buttons, raw))
    }

    /// Reads an express-key report; with `extra`, the two extra keys are
    /// read too, but only the first eight keys fit the reported mask.
    pub fn parse_aux(&self, data: &[u8], raw: String, extra: bool) -> (r: Option<TabletData>)
        ensures
            report_view(r) == intuos3_aux(data@, raw@),
    {
        if data.len() < 7 {
            return None;
        }
        let b5 = data[5];
        let b6 = data[6];
        let low = low_nibble_sum(b5, b6);
        let mut buttons: u16 = low as u16;
        if extra {
            if (b5 & 16) != 0 {
                buttons = buttons + 256;
            }
            if (b6 & 16) != 0 {
                buttons = buttons + 512;
            }
        }
        assert(buttons % 256 == low);
        assert((buttons as u8) == buttons % 256) by (bit_vector);
        Some(aux_report(buttons as u8, raw))
    }
}

impl ReportParser for Intuos3Parser {
    open spec fn step(&self, data: Seq<u8>) -> (Self, Option<TabletDataView>) {
        if data.len() == 0 {
            (*self, None)
        } else {
            intuos3_internal(*self, data, hex_dump(data))
        }
    }

    fn parse(&mut self, data: &[u8]) -> (r: Option<TabletData>) {
        if data.len() == 0 {
            return None;
        }
        let raw = hex_dump_all(data);
        self.parse_internal(data, raw)
    }
}

/// Intuos 3 models with two extra express keys.
pub struct Intuos3ExtraAuxParser {
    pub inner: Intuos3Parser,
}

impl Intuos3ExtraAuxParser {
    pub fn new() -> (p: Self)
        ensures
            p.inner.inner_v1 == intuos_v1_initial(),
    {
        Self { inner: Intuos3Parser::new() }
    }
}

impl Default for Intuos3ExtraAuxParser {
    fn default() -> (p: Self)
        ensures
            p.inner.inner_v1 == intuos_v1_initial(),
    {
        Self::new()
    }
}

impl ReportParser for Intuos3ExtraAuxParser {
    open spec fn step(&self, data: Seq<u8>) -> (Self, Option<TabletDataView>) {
        if data.len() == 0 {
            (*self, None)
        } else if data[0] == 0x0C {
            (*self, intuos3_aux(data, hex_dump(data)))
        } else {
            let (inner, r) = intuos3_internal(self.inner, data, hex_dump(data));
            (Intuos3ExtraAuxParser { inner }, r)
        }
    }

    fn parse(&mut self, data: &[u8]) -> (r: Option<TabletData>) {
        if data.len() == 0 {
            return None;
        }
        let raw = hex_dump_all(data);
        if data[0] == 0x0C {
            self.inner.parse_aux(data, raw, true)
        } else {
            self.inner.parse_internal(data, raw)
        }
    }
}

/// The Wacom driver layout: a leading byte, then an Intuos 3 report read
/// without it; the dump covers the whole packet.
pub struct WacomDriverIntuos3Parser {
    pub inner: Intuos3Parser,
}

impl WacomDriverIntuos3Parser {
    pub fn new() -> (p: Self)
        ensures
            p.inner.inner_v1 == intuos_v1_initial(),
    {
        Self { inner: Intuos3Parser::new() }
    }
}

impl Default for WacomDriverIntuos3Parser {
    fn default() -> (p: Self)
        ensures
            p.inner.inner_v1 == intuos_v1_initial(),
    {
        Self::new()
    }
}

impl ReportParser for WacomDriverIntuos3Parser {
    open spec fn step(&self, data: Seq<u8>) -> (Self, Option<TabletDataView>) {
        if data.len() < 2 {
            (*self, None)
        } else {
            let (inner, r) = intuos3_internal(self.inner, data.skip(1), hex_dump(data));
            (WacomDriverIntuos3Parser { inner }, r)
        }
    }

    fn parse(&mut self, data: &[u8]) -> (r: Option<TabletData>) {
        if data.len() < 2 {
            return None;
        }
        let raw = hex_dump_all(data);
        let rest = slice_subrange(data, 1, data.len());
        assert(rest@ =~= data@.skip(1));
        self.inner.parse_internal(rest, raw)
    }
}

} // verus!
