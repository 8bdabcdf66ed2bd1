//! Genius tablets (two report layouts).
use crate::parsers::ReportParser;
use crate::report::{
    aux_report, aux_view, bit_flag, contact_or_hover, flag, has_bits, hex_dump, hex_dump_all, le16,
    mouse_report, mouse_view, pen_report, pen_view, read_le16, status_contact_or_hover, TabletData,
    TabletDataView,
};
use vstd::prelude::*;

verus! {

pub struct GeniusParserV1;

pub struct GeniusParserV2;

/// The Genius pen layout after the report id: little-endian x and y at 1..5,
/// a status byte at 5 (0x04 pressure valid, 0x08 and 0x10 pen buttons) and
/// the pressure at 6..8.
pub open spec fn genius_pen_view(d: Seq<u8>) -> TabletDataView
    recommends
        d.len() >= 8,
{
    let pressure: u16 = if has_bits(d[5], 0x04) {
        le16(d[6], d[7])
    } else {
        0
    };
    pen_view(
        contact_or_hover(pressure as int),
        le16(d[1], d[2]),
        le16(d[3], d[4]),
        pressure,
        0,
        0,
        (flag(has_bits(d[5], 0x08), 1) + flag(has_bits(d[5], 0x10), 2)) as u8,
        false,
        0,
        hex_dump(d),
    )
}

/// Report 0x10 is a pen report (8 bytes), 0x11 a mouse report (7 bytes):
/// buttons in byte 1, little-endian x and y at 2..6.
pub open spec fn genius_v1_report(d: Seq<u8>) -> Option<TabletDataView> {
    if d.len() == 0 {
        None
    } else if d[0] == 0x10 {
        if d.len() < 8 {
            None
        } else {
            Some(genius_pen_view(d))
        }
    } else if d[0] == 0x11 {
        if d.len() < 7 {
            None
        } else {
            Some(
                mouse_view(
                    le16(d[2], d[3]),
                    le16(d[4], d[5]),
                    (flag(has_bits(d[1], 0x01), 1) + flag(has_bits(d[1], 0x02), 2) + flag(
                        has_bits(d[1], 0x04),
                        4,
                    )) as u8,
                    hex_dump(d),
                ),
            )
        }
    } else {
        None
    }
}

/// The aux byte `a` names key `(a - 1) / 2`; keys past the eighth are dropped.
pub open spec fn genius_aux_mask(a: u8) -> u8 {
    if a > 0 && (a - 1) / 2 < 8 {
        1u8 << (((a - 1) / 2) as u8)
    } else {
        0
    }
}

/// Report 0x02 is a pen report in the V1 pen layout, 0x05 an aux report
/// (4 bytes) whose key number is in byte 3.
pub open spec fn genius_v2_report(d: Seq<u8>) -> Option<TabletDataView> {
    if d.len() == 0 {
        None
    } else if d[0] == 0x02 {
        if d.len() < 8 {
            None
        } else {
            Some(genius_pen_view(d))
        }
    } else if d[0] == 0x05 {
        if d.len() < 4 {
            None
        } else {
            Some(aux_view(genius_aux_mask(d[3]), hex_dump(d)))
        }
    } else {
        None
    }
}

fn genius_pen(data: &[u8]) -> (r: TabletData)
    requires
        data@.len() >= 8,
    ensures
        r@ == genius_pen_view(data@),
{
    let raw = hex_dump_all(data);
    let pressure = if (data[5] & 0x04) != 0 {
        read_le16(data[6], data[7])
    } else {
        0
    };
    let buttons = bit_flag(data[5], 0x08, 1) + bit_flag(data[5], 0x10, 2);
    pen_report(
        status_contact_or_hover(pressure),
        read_le16(data[1], data[2]),
        read_le16(data[3], data[4]),
        pressure,
        0,
        0,
        buttons,
        false,
        0,
        raw,
    )
}

impl ReportParser for GeniusParserV1 {
    open spec fn step(&self, data: Seq<u8>) -> (Self, Option<TabletDataView>) {
        (*self, genius_v1_report(data))
    }

    fn parse(&mut self, data: &[u8]) -> (r: Option<TabletData>) {
        if data.len() == 0 {
            return None;
        }
        if data[0] == 0x10 {
            if data.len() < 8 {
                return None;
            }
            Some(genius_pen(data))
        } else if data[0] == 0x11 {
            if data.len() < 7 {
                return None;
            }
            let buttons = bit_flag(data[1], 0x01, 1) + bit_flag(data[1], 0x02, 2) + bit_flag(
                data[1],
                0x04,
                4,
            );
            Some(
                mouse_report(
                    read_le16(data[2], data[3]),
                    read_le16(data[4], data[5]),
                    buttons,
                    hex_dump_all(data),
                ),
            )
        } else {
            None
        }
    }
}

impl ReportParser for GeniusParserV2 {
    open spec fn step(&self, data: Seq<u8>) -> (Self, Option<TabletDataView>) {
        (*self, genius_v2_report(data))
    }

    fn parse(&mut self, data: &[u8]) -> (r: Option<TabletData>) {
        if data.len() == 0 {
            return None;
        }
        if data[0] == 0x02 {
            if data.len() < 8 {
                return None;
            }
            Some(genius_pen(data))
        } else if data[0] == 0x05 {
            if data.len() < 4 {
                return None;
            }
            let aux_byte = data[3];
            let mut buttons: u8 = 0;
            if aux_byte > 0 {
                let active_index = (aux_byte - 1) / 2;
                if active_index < 8 {
                    buttons = 1u8 << active_index;
                }
            }
            Some(aux_report(buttons, hex_dump_all(data)))
        } else {
            None
        }
    }
}

} // verus!
