//! Wacom Intuos Pro: Intuos V1 pen reports and express-key reports.
use crate::parsers::ReportParser;
use crate::report::{aux_report, hex_dump, hex_dump_all, report_view, TabletData, TabletDataView};
use vstd::prelude::*;
use crate::parsers::wacom::intuos_v1::{
    intuos_v1_aux, intuos_v1_initial, intuos_v1_internal, IntuosV1Parser,
};
use vstd::slice::slice_subrange;

verus! {

pub struct IntuosProParser {
    pub inner_v1: IntuosV1Parser,
}

/// Reports 2 and 0x10 are Intuos V1 reports, 3 an express-key report with
/// the keys in byte 4.
pub open spec fn intuos_pro_internal(p: IntuosProParser, d: Seq<u8>, raw: Seq<char>) -> (
    IntuosProParser,
    Option<TabletDataView>,
)
    recommends
        d.len() >= 1,
{
    if d[0] == 0x02 || d[0] == 0x10 {
        let (v1, r) = intuos_v1_internal(p.inner_v1, d, raw);
        (IntuosProParser { inner_v1: v1 }, r)
    } else if d[0] == 0x03 {
        (p, intuos_v1_aux(d, raw))
    } else {
        (p, None)
    }
}

impl IntuosProParser {
    pub fn new() -> (p: Self)
        ensures
            p.inner_v1 == intuos_v1_initial(),
    {
        Self { inner_v1: IntuosV1Parser::new() }
    }

    fn parse_internal(&mut self, data: &[u8], raw: String) -> (r: Option<TabletData>)
        requires
            data@.len() >= 1,
        ensures
            (*final(self), report_view(r)) == intuos_pro_internal(*old(self), data@, raw@),
    {
        if data[0] == 0x02 || data[0] == 0x10 {
            self.inner_v1.parse_internal(data, raw)
        } else if data[0] == 0x03 {
            self.parse_aux(data, raw)
        } else {
            None
        }
    }

    fn parse_aux(&self, data: &[u8], raw: String) -> (r: Option<TabletData>)
        ensures
            report_view(r) == intuos_v1_aux(data@, raw@),
    {
        if data.len() < 5 {
            return None;
        }
        Some(aux_report(data[4], raw))
    }
}

impl ReportParser for IntuosProParser {
    open spec fn step(&self, data: Seq<u8>) -> (Self, Option<TabletDataView>) {
        if data.len() == 0 {
            (*self, None)
        } else {
            intuos_pro_internal(*self, data, hex_dump(data))
        }
    }

    fn parse(&mut self, data: &[u8]) -> (r: Option<TabletData>) {
        if data.len() == 0 {
            return None;
        }
        let raw = hex_dump_all(data);
        self.parse_internal(data, raw)
    }
}

/// The Wacom driver layout: a leading byte, then an Intuos Pro report read
/// without it; the dump covers the whole packet.
pub struct WacomDriverIntuosProParser {
    pub inner: IntuosProParser,
}

impl WacomDriverIntuosProParser {
    pub fn new() -> (p: Self)
        ensures
            p.inner.inner_v1 == intuos_v1_initial(),
    {
        Self { inner: IntuosProParser::new() }
    }
}

impl ReportParser for WacomDriverIntuosProParser {
    open spec fn step(&self, data: Seq<u8>) -> (Self, Option<TabletDataView>) {
        if data.len() < 2 {
            (*self, None)
        } else {
            let (inner, r) = intuos_pro_internal(self.inner, data.skip(1), hex_dump(data));
            (WacomDriverIntuosProParser { inner }, r)
        }
    }

    fn parse(&mut self, data: &[u8]) -> (r: Option<TabletData>) {
        if data.len() < 2 {
            return None;
        }
        let raw = hex_dump_all(data);
        let rest = slice_subrange(data, 1, data.len());
        assert(rest@ =~= data@.skip(1));
        self.inner.parse_internal(rest, raw)
    }
}

} // verus!
