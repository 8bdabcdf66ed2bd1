//! Wacom Bamboo V2 aux reports.
use crate::parsers::ReportParser;
use crate::report::{aux_report, aux_view, hex_dump, hex_dump_all, TabletData, TabletDataView};
use vstd::prelude::*;

verus! {

pub struct BambooV2AuxParser;

/// Report id 2 is an aux report with the keys in byte 1.
pub open spec fn bamboo_v2_aux_report(d: Seq<u8>) -> Option<TabletDataView> {
    if d.len() < 2 || d[0] != 0x02 {
        None
    } else {
        Some(aux_view(d[1], hex_dump(d)))
    }
}

impl ReportParser for BambooV2AuxParser {
    open spec fn step(&self, data: Seq<u8>) -> (Self, Option<TabletDataView>) {
        (*self, bamboo_v2_aux_report(data))
    }

    fn parse(&mut self, data: &[u8]) -> (r: Option<TabletData>) {
        if data.len() == 0 {
            return None;
        }
        let raw = hex_dump_all(data);
        if data[0] == 0x02 {
            if data.len() < 2 {
                return None;
            }
            Some(aux_report(data[1], raw))
        } else {
            None
        }
    }
}

} // verus!
