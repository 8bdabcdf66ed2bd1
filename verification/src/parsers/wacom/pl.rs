//! Wacom PL displays: the eraser end is recognised when the pen comes into range.
use crate::parsers::ReportParser;
use crate::report::{
    bit_flag, contact_or_hover, flag, has_bits, hex_dump, hex_dump_all, pen_report, pen_view,
    status_contact_or_hover, TabletData, TabletDataView,
};
use vstd::prelude::*;

verus! {

/// Remembers whether the pen came into range with its eraser end, and
/// whether the last packet was out of range.
pub struct PLParser {
    pub initial_eraser: bool,
    pub last_report_out_of_range: bool,
}

/// A parser that has not seen the pen yet.
pub open spec fn pl_initial() -> PLParser {
    PLParser { initial_eraser: false, last_report_out_of_range: true }
}

impl PLParser {
    pub fn new() -> (p: Self)
        ensures
            p == pl_initial(),
    {
        Self { initial_eraser: false, last_report_out_of_range: true }
    }
}

impl Default for PLParser {
    fn default() -> (p: Self)
        ensures
            p == pl_initial(),
    {
        Self::new()
    }
}

/// A 16-bit coordinate of the PL layout: two bits of the status byte and
/// two 7-bit groups; values past 0xFFFF wrap.
pub open spec fn pl_coordinate(top: u8, mid: u8, low: u8) -> u16 {
    (((top & 0x03u8) * 16384 + mid * 128 + low) % 65536) as u16
}

/// The PL pressure: byte 7 with bit 6 inverted, shifted up by two, and two
/// low bits from bits 6 and 2 of byte 4.
pub open spec fn pl_pressure(b4: u8, b7: u8) -> u16 {
    (4 * (b7 ^ 0x40u8) + ((b4 & 0x40u8) >> 5u8) + ((b4 & 0x04u8) >> 2u8)) as u16
}

/// 8-byte packets. Without bit 0x40 of byte 1 the pen is out of range and
/// nothing is reported. The first packet in range after that decides, from
/// bit 0x20 of byte 4, whether the pen came in with its eraser; while it
/// did, that bit marks the eraser, otherwise it is the second pen button.
/// Bit 0x10 of byte 4 is the first pen button.
pub open spec fn pl_step(p: PLParser, d: Seq<u8>) -> (PLParser, Option<TabletDataView>) {
    if d.len() < 8 {
        (p, None)
    } else if !has_bits(d[1], 0x40) {
        (PLParser { last_report_out_of_range: true, ..p }, None)
    } else {
        let eraser_mode = if p.last_report_out_of_range {
            has_bits(d[4], 0x20)
        } else {
            p.initial_eraser
        };
        let pressure = pl_pressure(d[4], d[7]);
        (
            PLParser { initial_eraser: eraser_mode, last_report_out_of_range: false },
            Some(
                pen_view(
                    contact_or_hover(pressure as int),
                    pl_coordinate(d[1], d[2], d[3]),
                    pl_coordinate(d[4], d[5], d[6]),
                    pressure,
                    0,
                    0,
                    (flag(has_bits(d[4], 0x10), 1) + flag(
                        has_bits(d[4], 0x20) && !eraser_mode,
                        2,
                    )) as u8,
                    has_bits(d[4], 0x20) && eraser_mode,
                    0,
                    hex_dump(d),
                ),
            ),
        )
    }
}

fn read_pl_coordinate(top: u8, mid: u8, low: u8) -> (r: u16)
    ensures
        r == pl_coordinate(top, mid, low),
{
    let t = top & 0x03u8;
    assert(t <= 3) by (bit_vector)
        requires
            t == top & 0x03u8,
    ;
    let v: u32 = (t as u32) * 16384 + (mid as u32) * 128 + low as u32;
    (v % 65536) as u16
}

impl ReportParser for PLParser {
    open spec fn step(&self, data: Seq<u8>) -> (Self, Option<TabletDataView>) {
        pl_step(*self, data)
    }

    fn parse(&mut self, data: &[u8]) -> (r: Option<TabletData>) {
        if data.len() < 8 {
            return None;
        }
        let raw = hex_dump_all(data);
        if (data[1] & 0x40) == 0 {
            self.last_report_out_of_range = true;
            return None;
        }
        if self.last_report_out_of_range {
            self.initial_eraser = (data[4] & 0x20) != 0;
            self.last_report_out_of_range = false;
        }
        let is_initial_eraser = self.initial_eraser;
        let b4 = data[4];
        let pressure = (((data[7] ^ 0x40u8) as u16) * 4) + (((b4 & 0x40u8) >> 5u8) as u16) + (((
        b4 & 0x04u8) >> 2u8) as u16);
        let mut buttons = bit_flag(b4, 0x10, 1);
        if (b4 & 0x20) != 0 && !is_initial_eraser {
            buttons = buttons + 2;
        }
        let eraser = (b4 & 0x20) != 0 && is_initial_eraser;
        Some(
            pen_report(
                status_contact_or_hover(pressure),
                read_pl_coordinate(data[1], data[2], data[3]),
                read_pl_coordinate(data[4], data[5], data[6]),
                pressure,
                0,
                0,
                buttons,
                eraser,
                0,
                raw,
            ),
        )
    }
}

/// The eraser decision is latched: once the pen is in range, later packets
/// do not change it until the pen leaves range.
pub proof fn lemma_pl_eraser_latched(p: PLParser, d: Seq<u8>)
    requires
        d.len() >= 8,
        has_bits(d[1], 0x40),
        !p.last_report_out_of_range,
    ensures
        pl_step(p, d).0 == p,
{
}

/// The first packet in range after the pen was out of range decides the
/// eraser mode from bit 0x20 of byte 4.
pub proof fn lemma_pl_eraser_decided_on_entry(p: PLParser, d: Seq<u8>)
    requires
        d.len() >= 8,
        has_bits(d[1], 0x40),
        p.last_report_out_of_range,
    ensures
        pl_step(p, d).0.initial_eraser == has_bits(d[4], 0x20),
        !pl_step(p, d).0.last_report_out_of_range,
{
}

} // verus!
