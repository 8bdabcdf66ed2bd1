//! Where the Wacom parsers find the pen's position, pressure, tilt and
//! buttons, stated byte by byte over the raw packet.
use crate::parsers::layout_laws::{
    digit, intuos_v1_x_of, intuos_v1_y_of, lemma_intuos_v1_bit_fields, lemma_mask_of_digits,
    lemma_second_and_third_bits, lemma_three_flags, lemma_two_flags, little_endian_pen,
    pressed_status, signed_byte, three_buttons, two_buttons,
};
use crate::parsers::wacom::bamboo::BambooParser;
use crate::parsers::wacom::bamboo_pad::BambooPadParser;
use crate::parsers::wacom::bamboo_v2::BambooV2AuxParser;
use crate::parsers::wacom::graphire::GraphireParser;
use crate::parsers::wacom::intuos::IntuosParser;
use crate::parsers::wacom::intuos3::Intuos3Parser;
use crate::parsers::wacom::intuos4::Intuos4Parser;
use crate::parsers::wacom::intuos_pro::IntuosProParser;
use crate::parsers::wacom::intuos_v1::IntuosV1Parser;
use crate::parsers::wacom::misc::{wacom64_chunk_keys, wacom64_keys, Wacom64bAuxParser};
use crate::parsers::wacom::intuos_v2::IntuosV2Parser;
use crate::parsers::wacom::intuos_v3::IntuosV3Parser;
use crate::parsers::wacom::pl::PLParser;
use crate::parsers::wacom::ptu::PTUParser;
use crate::parsers::ReportParser;
use crate::report::{
    aux_status, contact_status, hover_status, mouse_status, out_of_range_status,
};
use vstd::prelude::*;

verus! {

/// A Bamboo pen report (id 0x02, 8 bytes or more): little-endian position,
/// a 10-bit pressure (byte 6 and the low two bits of byte 7) only while bit
/// 0x01 of byte 1 is set; it touches with pressure, hovers while bit 0x80
/// is set and is out of range otherwise; pen buttons in bits 0x02 and 0x04,
/// the eraser in bit 0x20.
pub proof fn lemma_bamboo_layout(d: Seq<u8>)
    requires
        d.len() >= 8,
        d[0] == 0x02,
    ensures
        ({
            let r = BambooParser.step(d).1;
            let pressure = if d[1] & 0x01u8 != 0 {
                d[6] + 256 * (d[7] % 4)
            } else {
                0
            };
            &&& r is Some
            &&& r->0.x == d[2] + 256 * d[3]
            &&& r->0.y == d[4] + 256 * d[5]
            &&& r->0.pressure == pressure
            &&& pressure > 0 ==> r->0.status == contact_status()
            &&& pressure == 0 && d[1] & 0x80u8 != 0 ==> r->0.status == hover_status()
            &&& pressure == 0 && d[1] & 0x80u8 == 0 ==> r->0.status == out_of_range_status()
            &&& two_buttons(r->0.buttons, d[1], 0x02, 0x04)
            &&& r->0.eraser == (d[1] & 0x20u8 != 0)
        }),
{
    lemma_second_and_third_bits(d[1]);
    lemma_low_two_bits(d[7]);
}

/// The low two bits of a byte are its remainder by 4.
pub proof fn lemma_low_two_bits(b: u8)
    by (bit_vector)
    ensures
        b & 0x03u8 == b % 4,
{
}

/// A Bamboo Pad packet (24 bytes or more, id 0x10): byte 1 0x01 is a
/// little-endian pen report at bytes 3..9 with its one pen button in bit
/// 0x02 of byte 2 and the eraser in bit 0x08; byte 1 0x06 is a key report
/// whose byte 23 names key 0 (1) or key 1 (2).
pub proof fn lemma_bamboo_pad_layout(d: Seq<u8>)
    requires
        d.len() >= 24,
        d[0] == 0x10,
    ensures
        d[1] == 0x01 ==> {
            let r = BambooPadParser.step(d).1;
            &&& r is Some
            &&& r->0.x == d[3] + 256 * d[4]
            &&& r->0.y == d[5] + 256 * d[6]
            &&& r->0.pressure == d[7] + 256 * d[8]
            &&& r->0.status == pressed_status(d[7] + 256 * d[8])
            &&& r->0.buttons == digit(d[2] & 0x02u8 != 0)
            &&& r->0.eraser == (d[2] & 0x08u8 != 0)
        },
        d[1] == 0x06 ==> {
            let r = BambooPadParser.step(d).1;
            &&& r is Some
            &&& r->0.status == aux_status()
            &&& r->0.buttons == (if d[23] == 1 {
                1u8
            } else if d[23] == 2 {
                2u8
            } else {
                0u8
            })
        },
{
}

/// A Bamboo V2 key report (id 0x02, 2 bytes or more) carries the keys of
/// byte 1.
pub proof fn lemma_bamboo_v2_layout(d: Seq<u8>)
    requires
        d.len() >= 2,
        d[0] == 0x02,
    ensures
        BambooV2AuxParser.step(d).1 is Some,
        BambooV2AuxParser.step(d).1->0.status == aux_status(),
        BambooV2AuxParser.step(d).1->0.buttons == d[1],
{
}

/// A Graphire report (id 0x02, 8 bytes or more) that carries a position
/// (bit 0x80 of byte 1, or a non-zero byte among 2..6 or in the pressure
/// field): with bit 0x40 a mouse report whose buttons are bits 0x40 and
/// 0x80 of byte 7; otherwise a little-endian pen report with the 10-bit
/// pressure (byte 6 and the low two bits of byte 7) only while bit 0x01 is
/// set, pen buttons in bits 0x02 and 0x04 of byte 1, the pad keys of bits
/// 0x40 and 0x80 of byte 7 as buttons 2 and 3, and the eraser in bit 0x20.
pub proof fn lemma_graphire_layout(d: Seq<u8>)
    requires
        d.len() >= 8,
        d[0] == 0x02,
        d[1] & 0x80u8 != 0 || d[2] != 0 || d[3] != 0 || d[4] != 0 || d[5] != 0 || d[6] != 0
            || d[7] % 4 != 0,
    ensures
        d[1] & 0x40u8 != 0 ==> {
            let r = GraphireParser.step(d).1;
            &&& r is Some
            &&& r->0.status == mouse_status()
            &&& r->0.x == d[2] + 256 * d[3]
            &&& r->0.y == d[4] + 256 * d[5]
            &&& two_buttons(r->0.buttons, d[7], 0x40, 0x80)
        },
        d[1] & 0x40u8 == 0 ==> {
            let r = GraphireParser.step(d).1;
            let pressure = if d[1] & 0x01u8 != 0 {
                d[6] + 256 * (d[7] % 4)
            } else {
                0
            };
            &&& r is Some
            &&& r->0.x == d[2] + 256 * d[3]
            &&& r->0.y == d[4] + 256 * d[5]
            &&& r->0.pressure == pressure
            &&& r->0.status == pressed_status(pressure)
            &&& (r->0.buttons & 0x01u8 != 0) == (d[1] & 0x02u8 != 0)
            &&& (r->0.buttons & 0x02u8 != 0) == (d[1] & 0x04u8 != 0)
            &&& (r->0.buttons & 0x04u8 != 0) == (d[7] & 0x40u8 != 0)
            &&& (r->0.buttons & 0x08u8 != 0) == (d[7] & 0x80u8 != 0)
            &&& r->0.buttons < 16
            &&& r->0.eraser == (d[1] & 0x20u8 != 0)
        },
{
    lemma_low_two_bits(d[7]);
    lemma_two_flags(d[7], 0x40, 0x80);
    let m = GraphireParser.step(d).1->0.buttons;
    let b0 = digit(d[1] & 0x02u8 != 0);
    let b1 = digit(d[1] & 0x04u8 != 0);
    let b2 = digit(d[7] & 0x40u8 != 0);
    let b3 = digit(d[7] & 0x80u8 != 0);
    if d[1] & 0x40u8 == 0 {
        assert(m == b0 + 2 * b1 + 4 * b2 + 8 * b3);
        lemma_mask_of_digits(m, b0, b1, b2, b3, 0, 0, 0, 0);
    }
}

/// An Intuos pen report (id 0x02, bit 0x40 of byte 1, 9 bytes or more):
/// little-endian position and pressure, touching with pressure, hovering
/// while bit 0x80 is set and out of range otherwise; pen buttons in bits
/// 0x02 and 0x04, the eraser in bit 0x08 and the hover distance in byte 8.
pub proof fn lemma_intuos_layout(d: Seq<u8>)
    requires
        d.len() >= 9,
        d[0] == 0x02,
        d[1] & 0x40u8 != 0,
    ensures
        ({
            let r = IntuosParser.step(d).1;
            let pressure = d[6] + 256 * d[7];
            &&& r is Some
            &&& r->0.x == d[2] + 256 * d[3]
            &&& r->0.y == d[4] + 256 * d[5]
            &&& r->0.pressure == pressure
            &&& pressure > 0 ==> r->0.status == contact_status()
            &&& pressure == 0 && d[1] & 0x80u8 != 0 ==> r->0.status == hover_status()
            &&& pressure == 0 && d[1] & 0x80u8 == 0 ==> r->0.status == out_of_range_status()
            &&& two_buttons(r->0.buttons, d[1], 0x02, 0x04)
            &&& r->0.eraser == (d[1] & 0x08u8 != 0)
            &&& r->0.hover_distance == d[8]
        }),
{
    lemma_second_and_third_bits(d[1]);
}

/// The Intuos 3, Intuos 4 and Intuos Pro parsers read an Intuos V1 pen
/// packet (report 0x02 or 0x10 with bit 0x20 of byte 1, 10 bytes or more)
/// as the Intuos V1 parser does, and remember what it remembers; the Intuos
/// 3 and 4 mouse statuses (byte 1 0xB0..0xBF or from 0xF0, and 0xEC or 0xAC)
/// are not pen packets.
pub proof fn lemma_intuos_families_read_v1_pens(v: IntuosV1Parser, d: Seq<u8>)
    requires
        d.len() >= 10,
        d[0] == 0x02 || d[0] == 0x10,
        d[1] & 0x20u8 != 0,
        !(0xB0 <= d[1] <= 0xBF || d[1] >= 0xF0),
        d[1] != 0xEC && d[1] != 0xAC,
    ensures
        (Intuos3Parser { inner_v1: v }).step(d) == (
            Intuos3Parser { inner_v1: v.step(d).0 },
            v.step(d).1,
        ),
        (Intuos4Parser { inner_v1: v }).step(d) == (
            Intuos4Parser { inner_v1: v.step(d).0 },
            v.step(d).1,
        ),
        (IntuosProParser { inner_v1: v }).step(d) == (
            IntuosProParser { inner_v1: v.step(d).0 },
            v.step(d).1,
        ),
{
}

/// An Intuos 3 mouse report (id 0x02, byte 1 0xB0..0xBF or from 0xF0, 10
/// bytes or more) sits at the Intuos position; its five buttons are bits
/// 0x04, 0x10, 0x08, 0x20 and 0x40 of byte 8, in that order.
pub proof fn lemma_intuos3_mouse_layout(p: Intuos3Parser, d: Seq<u8>)
    requires
        d.len() >= 10,
        d[0] == 0x02,
        0xB0 <= d[1] <= 0xBF || d[1] >= 0xF0,
    ensures
        ({
            let r = p.step(d).1;
            &&& r is Some
            &&& r->0.status == mouse_status()
            &&& r->0.x == intuos_v1_x_of(d)
            &&& r->0.y == intuos_v1_y_of(d)
            &&& (r->0.buttons & 0x01u8 != 0) == (d[8] & 0x04u8 != 0)
            &&& (r->0.buttons & 0x02u8 != 0) == (d[8] & 0x10u8 != 0)
            &&& (r->0.buttons & 0x04u8 != 0) == (d[8] & 0x08u8 != 0)
            &&& (r->0.buttons & 0x08u8 != 0) == (d[8] & 0x20u8 != 0)
            &&& (r->0.buttons & 0x10u8 != 0) == (d[8] & 0x40u8 != 0)
            &&& r->0.buttons < 32
        }),
{
    lemma_intuos_v1_bit_fields(d[7], d[8], d[9]);
    let m = p.step(d).1->0.buttons;
    let b0 = digit(d[8] & 0x04u8 != 0);
    let b1 = digit(d[8] & 0x10u8 != 0);
    let b2 = digit(d[8] & 0x08u8 != 0);
    let b3 = digit(d[8] & 0x20u8 != 0);
    let b4 = digit(d[8] & 0x40u8 != 0);
    assert(m == b0 + 2 * b1 + 4 * b2 + 8 * b3 + 16 * b4);
    lemma_mask_of_digits(m, b0, b1, b2, b3, b4, 0, 0, 0);
}

/// An Intuos 4 mouse report (id 0x02, byte 1 0xEC or 0xAC, 10 bytes or
/// more) sits at the Intuos position; its five buttons are bits 0x01, 0x04,
/// 0x02, 0x08 and 0x10 of byte 6, in that order.
pub proof fn lemma_intuos4_mouse_layout(p: Intuos4Parser, d: Seq<u8>)
    requires
        d.len() >= 10,
        d[0] == 0x02,
        d[1] == 0xEC || d[1] == 0xAC,
    ensures
        ({
            let r = p.step(d).1;
            &&& r is Some
            &&& r->0.status == mouse_status()
            &&& r->0.x == intuos_v1_x_of(d)
            &&& r->0.y == intuos_v1_y_of(d)
            &&& (r->0.buttons & 0x01u8 != 0) == (d[6] & 0x01u8 != 0)
            &&& (r->0.buttons & 0x02u8 != 0) == (d[6] & 0x04u8 != 0)
            &&& (r->0.buttons & 0x04u8 != 0) == (d[6] & 0x02u8 != 0)
            &&& (r->0.buttons & 0x08u8 != 0) == (d[6] & 0x08u8 != 0)
            &&& (r->0.buttons & 0x10u8 != 0) == (d[6] & 0x10u8 != 0)
            &&& r->0.buttons < 32
        }),
{
    lemma_intuos_v1_bit_fields(d[7], d[8], d[9]);
    let m = p.step(d).1->0.buttons;
    let b0 = digit(d[6] & 0x01u8 != 0);
    let b1 = digit(d[6] & 0x04u8 != 0);
    let b2 = digit(d[6] & 0x02u8 != 0);
    let b3 = digit(d[6] & 0x08u8 != 0);
    let b4 = digit(d[6] & 0x10u8 != 0);
    assert(m == b0 + 2 * b1 + 4 * b2 + 8 * b3 + 16 * b4);
    lemma_mask_of_digits(m, b0, b1, b2, b3, b4, 0, 0, 0);
}

/// An Intuos V2 pen report: id 0x10 (17 bytes or more) with the status in
/// byte 1, or id 0x1E (13 bytes or more) with everything one byte later.
/// x is byte 2 (3), limited to 0xFFFF when byte 4 (5) is not zero; y is
/// byte 5 (6), limited when byte 7 (8) is not zero; pressure little endian
/// in bytes 8 and 9 (9 and 10); signed tilt bytes 10 and 11 (11 and 12);
/// pen buttons in bits 0x02 and 0x04 of the status, with bit 0x08 as a
/// third in the later layout; the eraser in bit 0x10.
pub proof fn lemma_intuos_v2_layout(d: Seq<u8>)
    ensures
        d.len() >= 17 && d[0] == 0x10 ==> {
            let r = IntuosV2Parser.step(d).1;
            &&& r is Some
            &&& r->0.x == (if d[4] != 0 {
                0xFFFF
            } else {
                d[2] as int
            })
            &&& r->0.y == (if d[7] != 0 {
                0xFFFF
            } else {
                d[5] as int
            })
            &&& r->0.pressure == d[8] + 256 * d[9]
            &&& r->0.status == pressed_status(d[8] + 256 * d[9])
            &&& r->0.tilt_x == signed_byte(d[10])
            &&& r->0.tilt_y == signed_byte(d[11])
            &&& two_buttons(r->0.buttons, d[1], 0x02, 0x04)
            &&& r->0.eraser == (d[1] & 0x10u8 != 0)
            &&& r->0.hover_distance == d[16]
        },
        d.len() >= 13 && d[0] == 0x1E ==> {
            let r = IntuosV2Parser.step(d).1;
            &&& r is Some
            &&& r->0.x == (if d[5] != 0 {
                0xFFFF
            } else {
                d[3] as int
            })
            &&& r->0.y == (if d[8] != 0 {
                0xFFFF
            } else {
                d[6] as int
            })
            &&& r->0.pressure == d[9] + 256 * d[10]
            &&& r->0.status == pressed_status(d[9] + 256 * d[10])
            &&& r->0.tilt_x == signed_byte(d[11])
            &&& r->0.tilt_y == signed_byte(d[12])
            &&& three_buttons(r->0.buttons, d[2], 0x02, 0x04, 0x08)
            &&& r->0.eraser == (d[2] & 0x10u8 != 0)
        },
        d.len() >= 2 && d[0] == 0x11 ==> {
            let r = IntuosV2Parser.step(d).1;
            r is Some && r->0.status == aux_status() && r->0.buttons == d[1]
        },
{
    if d.len() >= 17 {
        lemma_two_flags(d[1], 0x02, 0x04);
    }
    if d.len() >= 13 {
        lemma_three_flags(d[2], 0x02, 0x04, 0x08);
    }
}

/// An Intuos V3 tilt byte: below 0x80 as it is, from 0x80 counting down
/// from 0xFF.
pub open spec fn intuos_v3_tilt_of(b: u8) -> int {
    if b < 0x80 {
        b as int
    } else {
        b - 0xFF
    }
}

/// The top bit of a byte is set exactly from 0x80 on.
pub proof fn lemma_top_bit(b: u8)
    by (bit_vector)
    ensures
        (b & 0x80u8 != 0) == (b >= 0x80u8),
{
}

/// The Intuos V3 layouts. A pen report (id 0x1F, byte 1 0x01, 14 bytes or
/// more): little endian x at 3, y at 5, pressure at 7, tilt bytes 9 and 11,
/// pen buttons in bits 0x02 and 0x04 of byte 2, the eraser in bit 0x20 and
/// the hover distance in byte 13. An extended pen report (id 0x1E, 20 bytes
/// or more): x at 3 (limited to 0xFFFF when byte 5 is not zero), y at 6
/// (limited when byte 8 is not zero), pressure at 9, signed tilt bytes 11
/// and 13, pen buttons in bits 0x02, 0x04 and 0x08 of byte 2, the eraser in
/// bit 0x20 and the hover distance in byte 19. A key report (id 0x11, 4
/// bytes or more): keys 0..3 are bits 0..3 of byte 1, key 4 bit 0 of byte
/// 3, keys 5..7 bits 4..6 of byte 1.
pub proof fn lemma_intuos_v3_layout(d: Seq<u8>)
    ensures
        d.len() >= 14 && d[0] == 0x1F && d[1] == 0x01 ==> {
            let r = IntuosV3Parser.step(d).1;
            &&& r is Some
            &&& r->0.x == d[3] + 256 * d[4]
            &&& r->0.y == d[5] + 256 * d[6]
            &&& r->0.pressure == d[7] + 256 * d[8]
            &&& r->0.status == pressed_status(d[7] + 256 * d[8])
            &&& r->0.tilt_x == intuos_v3_tilt_of(d[9])
            &&& r->0.tilt_y == intuos_v3_tilt_of(d[11])
            &&& two_buttons(r->0.buttons, d[2], 0x02, 0x04)
            &&& r->0.eraser == (d[2] & 0x20u8 != 0)
            &&& r->0.hover_distance == d[13]
        },
        d.len() >= 20 && d[0] == 0x1E ==> {
            let r = IntuosV3Parser.step(d).1;
            &&& r is Some
            &&& r->0.x == (if d[5] != 0 {
                0xFFFF
            } else {
                d[3] + 256 * d[4]
            })
            &&& r->0.y == (if d[8] != 0 {
                0xFFFF
            } else {
                d[6] + 256 * d[7]
            })
            &&& r->0.pressure == d[9] + 256 * d[10]
            &&& r->0.status == pressed_status(d[9] + 256 * d[10])
            &&& r->0.tilt_x == signed_byte(d[11])
            &&& r->0.tilt_y == signed_byte(d[13])
            &&& three_buttons(r->0.buttons, d[2], 0x02, 0x04, 0x08)
            &&& r->0.eraser == (d[2] & 0x20u8 != 0)
            &&& r->0.hover_distance == d[19]
        },
        d.len() >= 4 && d[0] == 0x11 ==> {
            let r = IntuosV3Parser.step(d).1;
            let m = r->0.buttons;
            &&& r is Some
            &&& r->0.status == aux_status()
            &&& (m & 0x01u8 != 0) == (d[1] & 0x01u8 != 0)
            &&& (m & 0x02u8 != 0) == (d[1] & 0x02u8 != 0)
            &&& (m & 0x04u8 != 0) == (d[1] & 0x04u8 != 0)
            &&& (m & 0x08u8 != 0) == (d[1] & 0x08u8 != 0)
            &&& (m & 0x10u8 != 0) == (d[3] & 0x01u8 != 0)
            &&& (m & 0x20u8 != 0) == (d[1] & 0x10u8 != 0)
            &&& (m & 0x40u8 != 0) == (d[1] & 0x20u8 != 0)
            &&& (m & 0x80u8 != 0) == (d[1] & 0x40u8 != 0)
        },
{
    if d.len() >= 14 {
        lemma_two_flags(d[2], 0x02, 0x04);
        lemma_three_flags(d[2], 0x02, 0x04, 0x08);
        lemma_top_bit(d[9]);
        lemma_top_bit(d[11]);
    }
    if d.len() >= 4 && d[0] == 0x11 {
        let m = IntuosV3Parser.step(d).1->0.buttons;
        let b0 = digit(d[1] & 0x01u8 != 0);
        let b1 = digit(d[1] & 0x02u8 != 0);
        let b2 = digit(d[1] & 0x04u8 != 0);
        let b3 = digit(d[1] & 0x08u8 != 0);
        let b4 = digit(d[3] & 0x01u8 != 0);
        let b5 = digit(d[1] & 0x10u8 != 0);
        let b6 = digit(d[1] & 0x20u8 != 0);
        let b7 = digit(d[1] & 0x40u8 != 0);
        assert(m == b0 + 2 * b1 + 4 * b2 + 8 * b3 + 16 * b4 + 32 * b5 + 64 * b6 + 128 * b7);
        lemma_mask_of_digits(m, b0, b1, b2, b3, b4, b5, b6, b7);
    }
}

/// A PTU pen report (id 0x02, 8 bytes or more) is little endian, with pen
/// buttons in bits 0x02 and 0x10 of byte 1 and the eraser in bit 0x04.
pub proof fn lemma_ptu_layout(d: Seq<u8>)
    requires
        d.len() >= 8,
        d[0] == 0x02,
    ensures
        little_endian_pen(d, PTUParser.step(d).1),
        two_buttons(PTUParser.step(d).1->0.buttons, d[1], 0x02, 0x10),
        PTUParser.step(d).1->0.eraser == (d[1] & 0x04u8 != 0),
{
    lemma_two_flags(d[1], 0x02, 0x10);
}

/// The bit fields of a PL packet, read as digits.
pub proof fn lemma_pl_bit_fields(top: u8, b4: u8)
    by (bit_vector)
    ensures
        top & 0x03u8 == top % 4,
        (b4 & 0x40u8) >> 5u8 == 2 * ((b4 / 64) % 2),
        (b4 & 0x04u8) >> 2u8 == (b4 / 4) % 2,
{
}

/// A PL packet in range (8 bytes or more, bit 0x40 of byte 1): x is the low
/// two bits of byte 1, then 7 bits of byte 2, then byte 3 (mod 65536), y
/// the same of bytes 4, 5 and 6; the pressure is byte 7 with bit 6 flipped,
/// times 4, plus bit 6 of byte 4 as its bit 1 and bit 2 of byte 4 as its
/// bit 0. Bit 0x10 of byte 4 is the first pen button; bit 0x20 is the
/// eraser when the pen came into range in eraser mode, the second pen
/// button otherwise. A packet out of range gives no report.
pub proof fn lemma_pl_layout(p: PLParser, d: Seq<u8>)
    requires
        d.len() >= 8,
    ensures
        d[1] & 0x40u8 != 0 ==> {
            let (q, r) = p.step(d);
            let pressure = 4 * (d[7] ^ 0x40u8) + 2 * ((d[4] / 64) % 2) + (d[4] / 4) % 2;
            &&& r is Some
            &&& r->0.x == ((d[1] % 4) * 16384 + d[2] * 128 + d[3]) % 65536
            &&& r->0.y == ((d[4] % 4) * 16384 + d[5] * 128 + d[6]) % 65536
            &&& r->0.pressure == pressure
            &&& r->0.status == pressed_status(pressure)
            &&& (r->0.buttons & 0x01u8 != 0) == (d[4] & 0x10u8 != 0)
            &&& (r->0.buttons & 0x02u8 != 0) == (d[4] & 0x20u8 != 0 && !q.initial_eraser)
            &&& r->0.buttons < 4
            &&& r->0.eraser == (d[4] & 0x20u8 != 0 && q.initial_eraser)
        },
        d[1] & 0x40u8 == 0 ==> p.step(d).1 is None,
{
    lemma_pl_bit_fields(d[1], d[4]);
    lemma_pl_bit_fields(d[4], d[4]);
    let m = p.step(d).1->0.buttons;
    if d[1] & 0x40u8 != 0 {
        let q = p.step(d).0;
        let b0 = digit(d[4] & 0x10u8 != 0);
        let b1 = digit(d[4] & 0x20u8 != 0 && !q.initial_eraser);
        assert(m == b0 + 2 * b1);
        lemma_mask_of_digits(m, b0, b1, 0, 0, 0, 0, 0, 0);
    }
}

/// The express-key reports of the Intuos families: Intuos V1 and Intuos Pro
/// (report 0x03, 5 bytes or more) carry the keys of byte 4; Intuos 4
/// (report 0x0C, 4 bytes or more) those of byte 3; Intuos 3 (report 0x0C, 7
/// bytes or more) keys 0..3 in the low nibble of byte 5 and keys 4..7 in
/// the low nibble of byte 6. None of them changes what is remembered.
pub proof fn lemma_intuos_key_reports(v: IntuosV1Parser, d: Seq<u8>)
    ensures
        d.len() >= 5 && d[0] == 0x03 ==> {
            &&& v.step(d).0 == v
            &&& v.step(d).1 is Some
            &&& v.step(d).1->0.status == aux_status()
            &&& v.step(d).1->0.buttons == d[4]
            &&& (IntuosProParser { inner_v1: v }).step(d) == (IntuosProParser { inner_v1: v }, v.step(d).1)
            &&& (Intuos3Parser { inner_v1: v }).step(d) == (Intuos3Parser { inner_v1: v }, v.step(d).1)
        },
        d.len() >= 4 && d[0] == 0x0C ==> {
            let (q, r) = (Intuos4Parser { inner_v1: v }).step(d);
            q == (Intuos4Parser { inner_v1: v }) && r is Some && r->0.status == aux_status()
                && r->0.buttons == d[3]
        },
        d.len() >= 7 && d[0] == 0x0C ==> {
            let (q, r) = (Intuos3Parser { inner_v1: v }).step(d);
            q == (Intuos3Parser { inner_v1: v }) && r is Some && r->0.status == aux_status()
                && r->0.buttons == d[5] % 16 + 16 * (d[6] % 16)
        },
{
    if d.len() >= 7 {
        lemma_low_nibble(d[5]);
        lemma_low_nibble(d[6]);
    }
}

/// The low nibble of a byte is its remainder by 16.
pub proof fn lemma_low_nibble(b: u8)
    by (bit_vector)
    ensures
        b & 0x0Fu8 == b % 16,
{
}

/// Chunk `i` of a 64-byte aux packet (8 bytes apart from byte 2) fits the
/// packet, has id 0x80 and holds key `j` in the byte after its id.
pub open spec fn chunk_holds_key(d: Seq<u8>, i: int, j: u8) -> bool {
    &&& 8 * i + 3 < d.len()
    &&& d[8 * i + 2] == 0x80
    &&& (d[8 * i + 3] >> j) & 1u8 == 1u8
}

/// Bits of a union of masks, and of the low nibble of a byte.
pub proof fn lemma_union_bits(a: u8, c: u8, b: u8)
    by (bit_vector)
    ensures
        a < 16 && c < 16 ==> (a | c) < 16,
        forall|j: u8| j < 8 ==> ((((a | c) >> j) & 1u8 == 1u8) == ((a >> j) & 1u8 == 1u8 || (c >> j) & 1u8 == 1u8)),
        b & 0x0Fu8 < 16,
        forall|j: u8| j < 4 ==> (((b & 0x0Fu8) >> j) & 1u8 == (b >> j) & 1u8),
        forall|j: u8| j < 8 ==> ((0u8 >> j) & 1u8 == 0u8),
{
}

/// The keys of the first `n` chunks: key `j` (0..3) is down exactly when
/// one of those chunks holds it, and no key above 3 is ever down.
pub proof fn lemma_wacom64_keys(d: Seq<u8>, n: nat)
    ensures
        wacom64_keys(d, n) < 16,
        forall|j: u8|
            j < 4 ==> (((wacom64_keys(d, n) >> j) & 1u8 == 1u8) <==> exists|i: int|
                0 <= i < n && #[trigger] chunk_holds_key(d, i, j)),
    decreases n,
{
    if n == 0 {
        lemma_union_bits(0, 0, 0);
    } else {
        let m = (n - 1) as nat;
        lemma_wacom64_keys(d, m);
        let a = wacom64_keys(d, m);
        let offset: int = 8 * (m as int) + 2;
        let b: u8 = if offset + 1 < d.len() {
            d[offset + 1]
        } else {
            0
        };
        let c = wacom64_chunk_keys(d, m as int);
        lemma_union_bits(a, c, b);
        lemma_union_bits(a, c, 0);
        assert forall|j: u8| j < 4 implies (((wacom64_keys(d, n) >> j) & 1u8 == 1u8) <==> exists|
            i: int,
        | 0 <= i < n && #[trigger] chunk_holds_key(d, i, j)) by {
            if (c >> j) & 1u8 == 1u8 {
                assert(chunk_holds_key(d, m as int, j));
            }
            if exists|i: int| 0 <= i < n && #[trigger] chunk_holds_key(d, i, j) {
                let i = choose|i: int| 0 <= i < n && #[trigger] chunk_holds_key(d, i, j);
                if i < m {
                    assert(exists|i: int| 0 <= i < m && #[trigger] chunk_holds_key(d, i, j));
                }
            }
        }
    }
}

/// A 64-byte aux packet (3 bytes or more, byte 2 not 0x81) counts its
/// chunks in byte 1 and reports key `j` (0..3) down exactly when one of
/// those chunks holds it; a touch packet (byte 2 0x81) gives no report.
pub proof fn lemma_wacom64_aux_layout(d: Seq<u8>)
    requires
        d.len() >= 3,
    ensures
        d[2] == 0x81 ==> Wacom64bAuxParser.step(d).1 is None,
        d[2] != 0x81 ==> {
            let r = Wacom64bAuxParser.step(d).1;
            &&& r is Some
            &&& r->0.status == aux_status()
            &&& r->0.buttons < 16
            &&& forall|j: u8|
                j < 4 ==> (((r->0.buttons >> j) & 1u8 == 1u8) <==> exists|i: int|
                    0 <= i < d[1] && #[trigger] chunk_holds_key(d, i, j))
        },
{
    lemma_wacom64_keys(d, d[1] as nat);
}

} // verus!
