//! Wacom Intuos (first generation) pen reports.
use crate::parsers::ReportParser;
use crate::report::{
    contact_status, has_bits, hex_dump, hex_dump_all, hover_status, le16, out_of_range_status,
    pen_report, pen_view, read_le16, report_view, status_contact, status_hover, status_out_of_range,
    TabletData, TabletDataView,
};
use vstd::prelude::*;
use vstd::slice::slice_subrange;

verus! {

/// The fields of an Intuos pen report.
pub struct IntuosTabletReport {
    pub x: u16,
    pub y: u16,
    pub pressure: u16,
    pub eraser: bool,
    pub near_proximity: bool,
    pub buttons: u8,
    pub hover_distance: u8,
}

impl IntuosTabletReport {
    /// Reads little-endian position and pressure at 2..8; in byte 1 the
    /// eraser (0x08), proximity (0x80) and pen buttons (bits 1 and 2); the
    /// hover distance in byte 8.
    pub fn new(report: &[u8]) -> (r: Self)
        requires
            report@.len() >= 9,
        ensures
            r.x == le16(report@[2], report@[3]),
            r.y == le16(report@[4], report@[5]),
            r.pressure == le16(report@[6], report@[7]),
            r.eraser == has_bits(report@[1], 0x08),
            r.near_proximity == has_bits(report@[1], 0x80),
            r.buttons == (report@[1] >> 1u8) & 0x03u8,
            r.hover_distance == report@[8],
    {
        Self {
            x: read_le16(report[2], report[3]),
            y: read_le16(report[4], report[5]),
            pressure: read_le16(report[6], report[7]),
            eraser: (report[1] & 0x08) != 0,
            near_proximity: (report[1] & 0x80) != 0,
            buttons: (report[1] >> 1u8) & 0x03u8,
            hover_distance: report[8],
        }
    }
}

pub struct IntuosParser;

pub struct WacomDriverIntuosParser;

/// Report id 2 with bit 0x40 of byte 1 is a pen report (nine bytes or
/// more; a shorter one is malformed): contact while pressed, hover while in
/// proximity, out of range otherwise.
pub open spec fn intuos_report(d: Seq<u8>) -> Option<TabletDataView> {
    if d.len() < 2 || d[0] != 0x02 || !has_bits(d[1], 0x40) || d.len() < 9 {
        None
    } else {
        let pressure = le16(d[6], d[7]);
        Some(
            pen_view(
                if pressure > 0 {
                    contact_status()
                } else if has_bits(d[1], 0x80) {
                    hover_status()
                } else {
                    out_of_range_status()
                },
                le16(d[2], d[3]),
                le16(d[4], d[5]),
                pressure,
                0,
                0,
                (d[1] >> 1u8) & 0x03u8,
                has_bits(d[1], 0x08),
                d[8],
                hex_dump(d),
            ),
        )
    }
}

fn parse_intuos(data: &[u8]) -> (r: Option<TabletData>)
    ensures
        report_view(r) == intuos_report(data@),
{
    if data.len() < 2 || data.len() < 9 && (data[1] & 0x40) != 0 {
        return None;
    }
    if data[0] == 0x02 {
        if (data[1] & 0x40) != 0 {
            let report = IntuosTabletReport::new(data);
            let raw = hex_dump_all(data);
            let status = if report.pressure > 0 {
                status_contact()
            } else if report.near_proximity {
                status_hover()
            } else {
                status_out_of_range()
            };
            Some(
                pen_report(
                    status,
                    report.x,
                    report.y,
                    report.pressure,
                    0,
                    0,
                    report.buttons,
                    report.eraser,
                    report.hover_distance,
                    raw,
                ),
            )
        } else {
            None
        }
    } else {
        None
    }
}

impl ReportParser for IntuosParser {
    open spec fn step(&self, data: Seq<u8>) -> (Self, Option<TabletDataView>) {
        (*self, intuos_report(data))
    }

    fn parse(&mut self, data: &[u8]) -> (r: Option<TabletData>) {
        parse_intuos(data)
    }
}

/// The Wacom driver layout: one leading byte, then an Intuos report, which
/// is read (and dumped) without that byte.
pub open spec fn wacom_driver_intuos_report(d: Seq<u8>) -> Option<TabletDataView> {
    if d.len() < 2 {
        None
    } else {
        intuos_report(d.skip(1))
    }
}

impl ReportParser for WacomDriverIntuosParser {
    open spec fn step(&self, data: Seq<u8>) -> (Self, Option<TabletDataView>) {
        (*self, wacom_driver_intuos_report(data))
    }

    fn parse(&mut self, data: &[u8]) -> (r: Option<TabletData>) {
        if data.len() < 2 {
            return None;
        }
        let rest = slice_subrange(data, 1, data.len());
        assert(rest@ =~= data@.skip(1));
        parse_intuos(rest)
    }
}

} // verus!
