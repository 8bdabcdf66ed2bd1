//! Wacom Bamboo pen reports.
use crate::parsers::ReportParser;
use crate::report::{
    contact_status, has_bits, hex_dump, hex_dump_all, hover_status, le16, out_of_range_status,
    pen_report, pen_view, read_le16, status_contact, status_hover, status_out_of_range, TabletData,
    TabletDataView,
};
use vstd::prelude::*;

verus! {

/// The fields of a Bamboo pen report.
pub struct BambooTabletReport {
    pub x: u16,
    pub y: u16,
    pub pressure: u16,
    pub eraser: bool,
    pub near_proximity: bool,
    pub buttons: u8,
    pub aux_buttons: [bool; 4],
}

/// The 10-bit Bamboo pressure: byte 6 and the low two bits of byte 7, valid
/// while bit 0 of byte 1 is set.
pub open spec fn bamboo_pressure(d: Seq<u8>) -> u16
    recommends
        d.len() >= 8,
{
    if has_bits(d[1], 0x01) {
        le16(d[6], d[7] & 0x03u8)
    } else {
        0
    }
}

impl BambooTabletReport {
    /// Reads the report fields: little-endian x and y at 2..6; in byte 1
    /// the eraser (0x20), proximity (0x80) and the pen buttons (bits 1 and
    /// 2); the aux keys in bits 3..7 of byte 7.
    pub fn new(report: &[u8]) -> (r: Self)
        requires
            report@.len() >= 8,
        ensures
            r.x == le16(report@[2], report@[3]),
            r.y == le16(report@[4], report@[5]),
            r.pressure == bamboo_pressure(report@),
            r.eraser == has_bits(report@[1], 0x20),
            r.near_proximity == has_bits(report@[1], 0x80),
            r.buttons == (report@[1] >> 1u8) & 0x03u8,
            r.aux_buttons@ == seq![
                has_bits(report@[7], 0x08),
                has_bits(report@[7], 0x10),
                has_bits(report@[7], 0x20),
                has_bits(report@[7], 0x40),
            ],
    {
        let pressure = if (report[1] & 0x01) != 0 {
            read_le16(report[6], report[7] & 0x03)
        } else {
            0
        };
        let aux_buttons = [
            (report[7] & 0x08) != 0,
            (report[7] & 0x10) != 0,
            (report[7] & 0x20) != 0,
            (report[7] & 0x40) != 0,
        ];
        let r = Self {
            x: read_le16(report[2], report[3]),
            y: read_le16(report[4], report[5]),
            pressure,
            eraser: (report[1] & 0x20) != 0,
            near_proximity: (report[1] & 0x80) != 0,
            buttons: (report[1] >> 1u8) & 0x03u8,
            aux_buttons,
        };
        assert(r.aux_buttons@ =~= seq![
            has_bits(report@[7], 0x08),
            has_bits(report@[7], 0x10),
            has_bits(report@[7], 0x20),
            has_bits(report@[7], 0x40),
        ]);
        r
    }
}

pub struct BambooParser;

/// Report id 2 is a pen report (8 bytes): contact while pressed, hover
/// while in proximity, out of range otherwise.
pub open spec fn bamboo_report(d: Seq<u8>) -> Option<TabletDataView> {
    if d.len() < 8 || d[0] != 0x02 {
        None
    } else {
        let pressure = bamboo_pressure(d);
        Some(
            pen_view(
                if pressure > 0 {
                    contact_status()
                } else if has_bits(d[1], 0x80) {
                    hover_status()
                } else {
                    out_of_range_status()
                },
                le16(d[2], d[3]),
                le16(d[4], d[5]),
                pressure,
                0,
                0,
                (d[1] >> 1u8) & 0x03u8,
                has_bits(d[1], 0x20),
                0,
                hex_dump(d),
            ),
        )
    }
}

impl ReportParser for BambooParser {
    open spec fn step(&self, data: Seq<u8>) -> (Self, Option<TabletDataView>) {
        (*self, bamboo_report(data))
    }

    fn parse(&mut self, data: &[u8]) -> (r: Option<TabletData>) {
        if data.len() < 8 {
            return None;
        }
        if data[0] == 0x02 {
            let report = BambooTabletReport::new(data);
            let raw = hex_dump_all(data);
            let status = if report.pressure > 0 {
                status_contact()
            } else if report.near_proximity {
                status_hover()
            } else {
                status_out_of_range()
            };
            Some(
                pen_report(
                    status,
                    report.x,
                    report.y,
                    report.pressure,
                    0,
                    0,
                    report.buttons,
                    report.eraser,
                    0,
                    raw,
                ),
            )
        } else {
            None
        }
    }
}

} // verus!
