//! Generic tablets that prefix the generic layout with one extra byte.
use crate::parsers::ReportParser;
use crate::report::{hex_dump, hex_dump_all, TabletData, TabletDataView};
use vstd::prelude::*;
use crate::parsers::fallback::{fallback_report, parse_fallback};

verus! {

pub struct SkipByteParser;

/// The generic report of the packet without its first byte; `raw_data`
/// dumps the whole packet, skipped byte included.
pub open spec fn skip_byte_report(d: Seq<u8>) -> Option<TabletDataView> {
    if d.len() == 0 {
        None
    } else {
        match fallback_report(d.skip(1)) {
            Some(v) => Some(TabletDataView { raw_data: hex_dump(d), ..v }),
            None => None,
        }
    }
}

impl ReportParser for SkipByteParser {
    open spec fn step(&self, data: Seq<u8>) -> (Self, Option<TabletDataView>) {
        (*self, skip_byte_report(data))
    }

    fn parse(&mut self, data: &[u8]) -> (r: Option<TabletData>) {
        if data.len() == 0 {
            return None;
        }
        let rest = vstd::slice::slice_subrange(data, 1, data.len());
        assert(rest@ =~= data@.skip(1));
        let parsed = parse_fallback(rest);
        match parsed {
            Some(mut p) => {
                p.raw_data = hex_dump_all(data);
                Some(p)
            },
            None => None,
        }
    }
}

} // verus!
