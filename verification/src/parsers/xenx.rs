//! XENX tablets.
use crate::parsers::ReportParser;
use crate::report::{
    aux_report, aux_view, bit_flag, contact_or_hover, flag, has_bits, hex_dump, hex_dump_all, le16,
    pen_report, pen_view, read_le16, status_contact_or_hover, TabletData, TabletDataView,
};
use vstd::prelude::*;

verus! {

pub struct XenxParser;

/// The aux keys of a XENX aux report: bytes 2..10 each hold one key, the
/// key pressed when the byte is non-zero.
pub open spec fn xenx_aux_mask(d: Seq<u8>) -> u8
    recommends
        d.len() >= 10,
{
    (flag(d[2] != 0, 1) + flag(d[3] != 0, 2) + flag(d[4] != 0, 4) + flag(d[5] != 0, 8) + flag(
        d[6] != 0,
        16,
    ) + flag(d[7] != 0, 32) + flag(d[8] != 0, 64) + flag(d[9] != 0, 128)) as u8
}

/// Report 1 is a pen report unless its status byte is 0 (out of range):
/// little-endian position and pressure at 2..8, pen buttons 0x02 and 0x04,
/// eraser 0x40. Report 2 is an aux report of 12 bytes.
pub open spec fn xenx_report(d: Seq<u8>) -> Option<TabletDataView> {
    if d.len() < 2 {
        None
    } else if d[0] == 0x01 {
        if d[1] == 0 || d.len() < 8 {
            None
        } else {
            let pressure = le16(d[6], d[7]);
            Some(
                pen_view(
                    contact_or_hover(pressure as int),
                    le16(d[2], d[3]),
                    le16(d[4], d[5]),
                    pressure,
                    0,
                    0,
                    (flag(has_bits(d[1], 0x02), 1) + flag(has_bits(d[1], 0x04), 2)) as u8,
                    has_bits(d[1], 0x40),
                    0,
                    hex_dump(d),
                ),
            )
        }
    } else if d[0] == 0x02 {
        if d.len() < 12 {
            None
        } else {
            Some(aux_view(xenx_aux_mask(d), hex_dump(d)))
        }
    } else {
        None
    }
}

impl ReportParser for XenxParser {
    open spec fn step(&self, data: Seq<u8>) -> (Self, Option<TabletDataView>) {
        (*self, xenx_report(data))
    }

    fn parse(&mut self, data: &[u8]) -> (r: Option<TabletData>) {
        if data.len() < 2 {
            return None;
        }
        let raw = hex_dump_all(data);
        if data[0] == 0x01 {
            if data[1] == 0 {
                return None;
            }
            if data.len() < 8 {
                return None;
            }
            let pressure = read_le16(data[6], data[7]);
            let buttons = bit_flag(data[1], 0x02, 1) + bit_flag(data[1], 0x04, 2);
            Some(
                pen_report(
                    status_contact_or_hover(pressure),
                    read_le16(data[2], data[3]),
                    read_le16(data[4], data[5]),
                    pressure,
                    0,
                    0,
                    buttons,
                    (data[1] & 0x40) != 0,
                    0,
                    raw,
                ),
            )
        } else if data[0] == 0x02 {
            if data.len() < 12 {
                return None;
            }
            let mut buttons: u8 = 0;
            if data[2] != 0 {
                buttons = buttons + 1;
            }
            if data[3] != 0 {
                buttons = buttons + 2;
            }
            if data[4] != 0 {
                buttons = buttons + 4;
            }
            if data[5] != 0 {
                buttons = buttons + 8;
            }
            if data[6] != 0 {
                buttons = buttons + 16;
            }
            if data[7] != 0 {
                buttons = buttons + 32;
            }
            if data[8] != 0 {
                buttons = buttons + 64;
            }
            if data[9] != 0 {
                buttons = buttons + 128;
            }
            Some(aux_report(buttons, raw))
        } else {
            None
        }
    }
}

} // verus!
