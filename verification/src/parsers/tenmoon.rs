//! 10moon tablets.
use crate::parsers::ReportParser;
use crate::report::{
    aux_report, aux_view, be16, bit_flag, contact_or_hover, flag, has_bits, hex_dump, hex_dump_all,
    pen_report, pen_view, read_le16, status_contact_or_hover, TabletData, TabletDataView,
};
use vstd::prelude::*;

verus! {

pub struct TenMoonParser;

/// The first eight express keys of an aux report: key code in byte 12 and,
/// for code 0x33, a key whose bit in byte 11 is clear.
pub open spec fn tenmoon_aux_mask(b11: u8, b12: u8) -> u8 {
    (flag(b12 == 0x31, 1) + flag(b12 == 0x33 && !has_bits(b11, 0x80), 2) + flag(
        b12 == 0x33 && !has_bits(b11, 0x40),
        4,
    ) + flag(b12 == 0x33 && !has_bits(b11, 0x20), 8) + flag(
        b12 == 0x33 && !has_bits(b11, 0x10),
        16,
    ) + flag(b12 == 0x33 && !has_bits(b11, 0x08), 32) + flag(b12 == 0x23, 64) + flag(
        b12 == 0x32,
        128,
    )) as u8
}

/// The pressure of a 10moon pen report: the raw value counts down from
/// 0x0672 and is offset by 50 while a barrel button is held; the result is
/// 0x0672 minus the adjusted raw value, not below 0, and 0x0672 when the raw
/// value is below the offset.
pub open spec fn tenmoon_pressure(raw: u16, button_held: bool) -> u16 {
    let offset: int = if button_held {
        50
    } else {
        0
    };
    if raw >= offset {
        let adjusted = raw - offset;
        if 0x0672 > adjusted {
            (0x0672 - adjusted) as u16
        } else {
            0
        }
    } else {
        0x0672
    }
}

/// 13-byte packets: byte 11 other than 0xFF marks an aux report; otherwise
/// big-endian x, y and raw pressure at 1..7 and buttons in byte 9.
pub open spec fn tenmoon_report(d: Seq<u8>) -> Option<TabletDataView> {
    if d.len() < 13 {
        None
    } else if d[11] != 0xFF {
        Some(aux_view(tenmoon_aux_mask(d[11], d[12]), hex_dump(d)))
    } else {
        let pressure = tenmoon_pressure(be16(d[5], d[6]), has_bits(d[9], 6));
        Some(
            pen_view(
                contact_or_hover(pressure as int),
                be16(d[1], d[2]),
                be16(d[3], d[4]),
                pressure,
                0,
                0,
                (flag(has_bits(d[9], 0x04), 1) + flag(d[9] & 6 == 6, 2)) as u8,
                false,
                0,
                hex_dump(d),
            ),
        )
    }
}

impl ReportParser for TenMoonParser {
    open spec fn step(&self, data: Seq<u8>) -> (Self, Option<TabletDataView>) {
        (*self, tenmoon_report(data))
    }

    fn parse(&mut self, data: &[u8]) -> (r: Option<TabletData>) {
        if data.len() < 13 {
            return None;
        }
        let raw = hex_dump_all(data);
        let b11 = data[11];
        let b12 = data[12];
        if b11 != 0xFF {
            let mut buttons: u8 = 0;
            if b12 == 0x31 {
                buttons = buttons + 1;
            }
            if b12 == 0x33 && (b11 & 0x80) == 0 {
                buttons = buttons + 2;
            }
            if b12 == 0x33 && (b11 & 0x40) == 0 {
                buttons = buttons + 4;
            }
            if b12 == 0x33 && (b11 & 0x20) == 0 {
                buttons = buttons + 8;
            }
            if b12 == 0x33 && (b11 & 0x10) == 0 {
                buttons = buttons + 16;
            }
            if b12 == 0x33 && (b11 & 0x08) == 0 {
                buttons = buttons + 32;
            }
            if b12 == 0x23 {
                buttons = buttons + 64;
            }
            if b12 == 0x32 {
                buttons = buttons + 128;
            }
            Some(aux_report(buttons, raw))
        } else {
            let x = read_le16(data[2], data[1]);
            let y = read_le16(data[4], data[3]);
            let btn_pressed = (data[9] & 6) != 0;
            let pre_pressure = read_le16(data[6], data[5]);
            let pressure_offset: u16 = if btn_pressed {
                50
            } else {
                0
            };
            let pressure: u16 = if pre_pressure >= pressure_offset {
                let adjusted = pre_pressure - pressure_offset;
                if 0x0672 > adjusted {
                    0x0672 - adjusted
                } else {
                    0
                }
            } else {
                0x0672
            };
            let buttons = bit_flag(data[9], 0x04, 1) + (if (data[9] & 6) == 6 {
                2u8
            } else {
                0u8
            });
            Some(
                pen_report(
                    status_contact_or_hover(pressure),
                    x,
                    y,
                    pressure,
                    0,
                    0,
                    buttons,
                    false,
                    0,
                    raw,
                ),
            )
        }
    }
}

} // verus!
