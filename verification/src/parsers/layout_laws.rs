//! Where each layout finds the pen's position, pressure and buttons, stated
//! byte by byte over the raw packet: a 16-bit value made of bytes `lo` and
//! `hi` is `lo + 256 * hi`, and a button is set exactly when its bit is.
use crate::parsers::bosto::BostoParser;
use crate::parsers::uclogic::{
    uclogic_tablet_report, UCLogicParser, UCLogicTiltParser, UCLogicV1Parser, UCLogicV2Parser,
};
use crate::parsers::laws::{is_intuos_v1_pen_packet, is_intuos_v1_rotation_packet};
use crate::parsers::wacom::intuos_v1::{intuos_v1_tool, IntuosV1Parser};
use crate::parsers::xp_pen::extended::{
    gen2_report, offset_pressure_report, XpPenDeco03Parser, XpPenGen2Parser,
    XpPenOffsetAuxParser, XpPenOffsetPressureParser, XpPenParser,
};
use crate::parsers::xp_pen::standard::standard_report;
use crate::parsers::ReportParser;
use crate::report::{
    active_status, aux_status, contact_status, flag, has_bits, hover_status, out_of_range_status,
    rotation_status, tool_status, TabletDataView,
};
use vstd::prelude::*;

verus! {

/// The low three bits of a byte, one by one.
pub proof fn lemma_low_three_bits(b: u8)
    by (bit_vector)
    ensures
        b & 7u8 == (b & 1u8) + (b & 2u8) + (b & 4u8),
        b & 1u8 == 0 || b & 1u8 == 1,
        b & 2u8 == 0 || b & 2u8 == 2,
        b & 4u8 == 0 || b & 4u8 == 4,
        b & 1u8 == b % 2,
        (b >> 1u8) & 1u8 == (b / 2) % 2,
        (b & 2u8 != 0) == ((b / 2) % 2 == 1),
        (b & 4u8 != 0) == ((b / 4) % 2 == 1),
{
}

/// Bits 0 and 1 of `buttons` are set exactly when `status` has bits
/// `first` and `second`, and no other bit is.
pub open spec fn two_buttons(buttons: u8, status: u8, first: u8, second: u8) -> bool {
    &&& (buttons & 1u8 != 0) == (status & first != 0)
    &&& (buttons & 2u8 != 0) == (status & second != 0)
    &&& buttons < 4
}

/// Bits 0, 1 and 2 of `buttons` are set exactly when `status` has bits
/// `first`, `second` and `third`, and no other bit is.
pub open spec fn three_buttons(buttons: u8, status: u8, first: u8, second: u8, third: u8) -> bool {
    &&& (buttons & 1u8 != 0) == (status & first != 0)
    &&& (buttons & 2u8 != 0) == (status & second != 0)
    &&& (buttons & 4u8 != 0) == (status & third != 0)
    &&& buttons < 8
}

/// A mask built from two status bits has them as its bits 0 and 1.
pub proof fn lemma_two_flags(s: u8, first: u8, second: u8)
    ensures
        two_buttons(
            (flag(has_bits(s, first), 1) + flag(has_bits(s, second), 2)) as u8,
            s,
            first,
            second,
        ),
{
    let b = (flag(has_bits(s, first), 1) + flag(has_bits(s, second), 2)) as u8;
    lemma_low_three_bits(b);
}

/// A mask built from three status bits has them as its bits 0, 1 and 2.
pub proof fn lemma_three_flags(s: u8, first: u8, second: u8, third: u8)
    ensures
        three_buttons(
            (flag(has_bits(s, first), 1) + flag(has_bits(s, second), 2) + flag(
                has_bits(s, third),
                4,
            )) as u8,
            s,
            first,
            second,
            third,
        ),
{
    let b = (flag(has_bits(s, first), 1) + flag(has_bits(s, second), 2) + flag(
        has_bits(s, third),
        4,
    )) as u8;
    lemma_low_three_bits(b);
}

/// A mask made of eight digits: bit `i` is set exactly when digit `i` is 1.
pub proof fn lemma_mask_of_digits(
    m: u8,
    b0: u8,
    b1: u8,
    b2: u8,
    b3: u8,
    b4: u8,
    b5: u8,
    b6: u8,
    b7: u8,
)
    by (bit_vector)
    requires
        b0 <= 1 && b1 <= 1 && b2 <= 1 && b3 <= 1 && b4 <= 1 && b5 <= 1 && b6 <= 1 && b7 <= 1,
        m == b0 + 2 * b1 + 4 * b2 + 8 * b3 + 16 * b4 + 32 * b5 + 64 * b6 + 128 * b7,
    ensures
        (m & 0x01u8 != 0) == (b0 == 1),
        (m & 0x02u8 != 0) == (b1 == 1),
        (m & 0x04u8 != 0) == (b2 == 1),
        (m & 0x08u8 != 0) == (b3 == 1),
        (m & 0x10u8 != 0) == (b4 == 1),
        (m & 0x20u8 != 0) == (b5 == 1),
        (m & 0x40u8 != 0) == (b6 == 1),
        (m & 0x80u8 != 0) == (b7 == 1),
{
}

/// 1 when `c` holds, 0 otherwise.
pub open spec fn digit(c: bool) -> u8 {
    if c {
        1
    } else {
        0
    }
}

/// "Contact" when the pressure is above zero, "Hover" at zero.
pub open spec fn pressed_status(pressure: int) -> Seq<char> {
    if pressure == 0 {
        hover_status()
    } else {
        contact_status()
    }
}

/// A little-endian pen report: x in bytes 2 and 3, y in bytes 4 and 5,
/// pressure in bytes 6 and 7 (low byte first), and the status following
/// the pressure.
pub open spec fn little_endian_pen(d: Seq<u8>, r: Option<TabletDataView>) -> bool {
    &&& r is Some
    &&& r->0.x == d[2] + 256 * d[3]
    &&& r->0.y == d[4] + 256 * d[5]
    &&& r->0.pressure == d[6] + 256 * d[7]
    &&& r->0.status == pressed_status(d[6] + 256 * d[7])
    &&& r->0.is_connected
}

/// A Bosto packet of 8 bytes or more with a non-zero status is a pen
/// report: position and pressure little endian, status bit 0x20 the first
/// pen button (bit 0 of `buttons`) and bit 0x02 the second (bit 1), no other
/// button. Shorter packets and status 0 give no report.
pub proof fn lemma_bosto_pen_layout(d: Seq<u8>)
    ensures
        d.len() >= 8 && d[1] != 0 ==> little_endian_pen(d, BostoParser.step(d).1),
        d.len() >= 8 && d[1] != 0 ==> (BostoParser.step(d).1->0.buttons & 1u8 != 0) == (d[1]
            & 0x20u8 != 0),
        d.len() >= 8 && d[1] != 0 ==> (BostoParser.step(d).1->0.buttons & 2u8 != 0) == (d[1]
            & 0x02u8 != 0),
        d.len() >= 8 && d[1] != 0 ==> BostoParser.step(d).1->0.buttons < 4,
        d.len() >= 8 && d[1] != 0 ==> !BostoParser.step(d).1->0.eraser,
        d.len() < 8 || d[1] == 0 ==> BostoParser.step(d).1 is None,
{
    if d.len() >= 8 && d[1] != 0 {
        lemma_two_flags(d[1], 0x20, 0x02);
    }
}

/// A UC-Logic pen report of 8 bytes or more: position and pressure little
/// endian, the pen buttons are bits 0..2 of byte 1, and bit 2 also marks
/// the eraser.
pub proof fn lemma_uclogic_pen_layout(d: Seq<u8>, has_tilt: bool)
    requires
        d.len() >= 8,
    ensures
        little_endian_pen(d, uclogic_tablet_report(d, has_tilt)),
        uclogic_tablet_report(d, has_tilt)->0.buttons == d[1] & 7u8,
        uclogic_tablet_report(d, has_tilt)->0.eraser == (d[1] & 4u8 != 0),
{
    lemma_low_three_bits(d[1]);
}

/// Each UC-Logic variant reads its pen packets (8 bytes or more) in the
/// common little-endian layout: the plain and tilt variants every status
/// without bit 0x40 (the plain one but 0xC0), V1 every status with bit
/// 0x40 but 0xE0, V2 every status but 0xE0 and 0xF0.
pub proof fn lemma_uclogic_variants_pen_layout(d: Seq<u8>)
    requires
        d.len() >= 8,
    ensures
        d[1] != 0xC0 && d[1] & 0x40u8 == 0 ==> UCLogicParser.step(d).1 == uclogic_tablet_report(
            d,
            false,
        ),
        d[1] & 0x40u8 == 0 ==> UCLogicTiltParser.step(d).1 == uclogic_tablet_report(d, true),
        d[1] != 0xE0 && d[1] & 0x40u8 != 0 ==> UCLogicV1Parser.step(d).1 == uclogic_tablet_report(
            d,
            false,
        ),
        d[1] != 0xE0 && d[1] != 0xF0 ==> UCLogicV2Parser.step(d).1 == uclogic_tablet_report(
            d,
            true,
        ),
        d[1] != 0xC0 && d[1] & 0x40u8 == 0 ==> little_endian_pen(d, UCLogicParser.step(d).1),
{
    lemma_uclogic_pen_layout(d, false);
    lemma_uclogic_pen_layout(d, true);
}

/// Bits 1 and 2 of a byte moved down to bits 0 and 1.
pub proof fn lemma_second_and_third_bits(b: u8)
    by (bit_vector)
    ensures
        (((b >> 1u8) & 3u8) & 1u8 != 0) == (b & 2u8 != 0),
        (((b >> 1u8) & 3u8) & 2u8 != 0) == (b & 4u8 != 0),
        (b >> 1u8) & 3u8 < 4,
{
}

/// A byte read as a signed tilt: as it is below 128, less 256 above.
pub open spec fn signed_byte(b: u8) -> int {
    if b < 128 {
        b as int
    } else {
        b - 256
    }
}

/// The standard XP-Pen layout reads every packet of 8 bytes or more:
/// position and pressure little endian, tilt as signed bytes 8 and 9 (0
/// where the packet ends before), pen buttons in bits 1 and 2 of byte 1 and
/// the eraser in bit 3; status 0xA0 hovers, 0xA1 touches, 0xC0 and 0 are
/// out of range (disconnected) and every other status is "Active".
pub proof fn lemma_xp_pen_standard_layout(d: Seq<u8>)
    ensures
        d.len() < 8 <==> standard_report(d) is None,
        d.len() >= 8 ==> {
            let r = standard_report(d)->0;
            &&& r.x == d[2] + 256 * d[3]
            &&& r.y == d[4] + 256 * d[5]
            &&& r.pressure == d[6] + 256 * d[7]
            &&& r.tilt_x == (if d.len() > 8 { signed_byte(d[8]) } else { 0 })
            &&& r.tilt_y == (if d.len() > 9 { signed_byte(d[9]) } else { 0 })
            &&& (r.buttons & 1u8 != 0) == (d[1] & 0x02u8 != 0)
            &&& (r.buttons & 2u8 != 0) == (d[1] & 0x04u8 != 0)
            &&& r.buttons < 4
            &&& r.eraser == (d[1] & 0x08u8 != 0)
            &&& (d[1] == 0xA0 ==> r.status == hover_status())
            &&& (d[1] == 0xA1 ==> r.status == contact_status())
            &&& (d[1] == 0xC0 || d[1] == 0 ==> r.status == out_of_range_status()
                && !r.is_connected)
            &&& (d[1] != 0xA0 && d[1] != 0xA1 && d[1] != 0xC0 && d[1] != 0 ==> r.status
                == active_status() && r.is_connected)
        },
{
    if d.len() >= 8 {
        lemma_second_and_third_bits(d[1]);
    }
}

/// Which XP-Pen packets each variant reads in the standard layout: the
/// generic parser every status without bit 0x10; Deco 03 those without bit
/// 0x10 but 0xF0; the offset-aux variant those without bit 0x20; Gen2 those
/// whose high nibble is not 0xA, but 0xF0.
pub proof fn lemma_xp_pen_variants_standard_layout(d: Seq<u8>)
    requires
        d.len() >= 2,
    ensures
        d[1] & 0x10u8 == 0 ==> XpPenParser.step(d).1 == standard_report(d),
        d[1] & 0x10u8 == 0 && d[1] != 0xF0 ==> XpPenDeco03Parser.step(d).1 == standard_report(d),
        d[1] & 0x20u8 == 0 ==> XpPenOffsetAuxParser.step(d).1 == standard_report(d),
        d[1] & 0xF0u8 != 0xA0 && d[1] != 0xF0 ==> XpPenGen2Parser.step(d).1 == standard_report(d),
{
}

/// The XP-Pen Gen2 pen report (status with high nibble 0xA, 14 bytes or
/// more): x is byte 2 plus 65536 times byte 10 and y byte 4 plus 65536
/// times byte 11, each limited to 0xFFFF; pen buttons in bits 1 and 2 of
/// byte 1, the eraser in bit 3; bit 14 of the pressure is always clear.
pub proof fn lemma_xp_pen_gen2_layout(d: Seq<u8>)
    requires
        d.len() >= 14,
        d[1] & 0xF0u8 == 0xA0,
    ensures
        XpPenGen2Parser.step(d).1 == gen2_report(d),
        gen2_report(d) is Some,
        gen2_report(d)->0.x == vstd::math::min(d[2] + 65536 * d[10], 0xFFFF),
        gen2_report(d)->0.y == vstd::math::min(d[4] + 65536 * d[11], 0xFFFF),
        gen2_report(d)->0.pressure & 0x4000u16 == 0,
        gen2_report(d)->0.status == pressed_status(gen2_report(d)->0.pressure as int),
        (gen2_report(d)->0.buttons & 1u8 != 0) == (d[1] & 0x02u8 != 0),
        (gen2_report(d)->0.buttons & 2u8 != 0) == (d[1] & 0x04u8 != 0),
        gen2_report(d)->0.buttons < 4,
        gen2_report(d)->0.eraser == (d[1] & 0x08u8 != 0),
{
    lemma_two_flags(d[1], 0x02, 0x04);
    let p = (d[6] + 256 * d[7]) as u16;
    let s = d[1];
    assert(s != 0xF0u8) by (bit_vector)
        requires
            s & 0xF0u8 == 0xA0u8,
    ;
    let e = d[13];
    let h = ((e & 0x01u8) as u16) << 13u16;
    assert(((p & 0xBFFFu16) | h) & 0x4000u16 == 0) by (bit_vector)
        requires
            h == ((e & 0x01u8) as u16) << 13u16,
    ;
}

/// The offset-pressure XP-Pen variant reads every packet of 8 bytes or
/// more without bit 0x10 as a little-endian pen report, with signed tilt
/// bytes 8 and 9 when the packet has 10 bytes; pen buttons in bits 1 and 2
/// of byte 1, the eraser in bit 3.
pub proof fn lemma_xp_pen_offset_pressure_layout(d: Seq<u8>)
    requires
        d.len() >= 8,
        d[1] & 0x10u8 == 0,
    ensures
        XpPenOffsetPressureParser.step(d).1 == offset_pressure_report(d, d.len() >= 10),
        little_endian_pen(d, offset_pressure_report(d, d.len() >= 10)),
        offset_pressure_report(d, d.len() >= 10)->0.tilt_x == (if d.len() >= 10 {
            signed_byte(d[8])
        } else {
            0
        }),
        offset_pressure_report(d, d.len() >= 10)->0.tilt_y == (if d.len() >= 10 {
            signed_byte(d[9])
        } else {
            0
        }),
        (offset_pressure_report(d, d.len() >= 10)->0.buttons & 1u8 != 0) == (d[1] & 0x02u8 != 0),
        (offset_pressure_report(d, d.len() >= 10)->0.buttons & 2u8 != 0) == (d[1] & 0x04u8 != 0),
        offset_pressure_report(d, d.len() >= 10)->0.eraser == (d[1] & 0x08u8 != 0),
{
    lemma_two_flags(d[1], 0x02, 0x04);
}

/// A key report carries the keys of byte `k`.
pub open spec fn key_report(d: Seq<u8>, r: Option<TabletDataView>, k: int) -> bool {
    r is Some && r->0.status == aux_status() && r->0.buttons == d[k]
}

/// The XP-Pen key reports: bit 0x10 of byte 1 (also status 0xF0 on the
/// Deco 03) carries the keys of byte 2 for the generic, Deco 03 and
/// offset-pressure layouts; bit 0x20 those of byte 4 for the offset-aux
/// layout; status 0xF0 those of byte 2 for Gen2.
pub proof fn lemma_xp_pen_key_reports(d: Seq<u8>)
    ensures
        d.len() >= 3 && d[1] & 0x10u8 != 0 ==> key_report(d, XpPenParser.step(d).1, 2)
            && key_report(d, XpPenDeco03Parser.step(d).1, 2) && key_report(
            d,
            XpPenOffsetPressureParser.step(d).1,
            2,
        ),
        d.len() >= 3 && d[1] == 0xF0 ==> key_report(d, XpPenDeco03Parser.step(d).1, 2)
            && key_report(d, XpPenGen2Parser.step(d).1, 2),
        d.len() >= 5 && d[1] & 0x20u8 != 0 ==> key_report(d, XpPenOffsetAuxParser.step(d).1, 4),
{
}

/// The UC-Logic key reports (7 bytes or more) carry the keys of byte 4:
/// on the plain and tilt variants a status with bit 0x40 (the plain one but
/// 0xC0), on V1 and V2 status 0xE0.
pub proof fn lemma_uclogic_key_reports(d: Seq<u8>)
    requires
        d.len() >= 7,
    ensures
        d[1] != 0xC0 && d[1] & 0x40u8 != 0 ==> key_report(d, UCLogicParser.step(d).1, 4),
        d[1] & 0x40u8 != 0 ==> key_report(d, UCLogicTiltParser.step(d).1, 4),
        d[1] == 0xE0 ==> key_report(d, UCLogicV1Parser.step(d).1, 4) && key_report(
            d,
            UCLogicV2Parser.step(d).1,
            4,
        ),
{
}

/// The Intuos V1 tool report (status 0xC2, 10 bytes or more): it names the
/// tool, the eraser when bit 0x80 of byte 3 is set, and leaves what is
/// remembered as it is. Status 0x80, and report 0x10 with status 0x20, are
/// out of range and give no report.
pub proof fn lemma_intuos_v1_tool_report(p: IntuosV1Parser, d: Seq<u8>)
    requires
        d.len() >= 10,
        d[0] == 0x02 || d[0] == 0x10,
    ensures
        d[1] == 0xC2 ==> {
            let (q, r) = p.step(d);
            q == p && r is Some && r->0.status == tool_status() && r->0.eraser == (d[3] & 0x80u8
                != 0)
        },
        d[1] == 0x80 || (d[0] == 0x10 && d[1] == 0x20) ==> p.step(d) == (p, None::<TabletDataView>),
{
    assert(0xC2u8 & 0x20u8 == 0 && 0xC2u8 & 0x08u8 == 0) by (bit_vector);
}

/// The bit fields of an Intuos V1 packet, read as digits.
pub proof fn lemma_intuos_v1_bit_fields(b7: u8, b8: u8, b9: u8)
    by (bit_vector)
    ensures
        (b9 >> 1u8) & 1u8 == (b9 / 2) % 2,
        b9 & 1u8 == b9 % 2,
        ((b7 << 1u8) & 0x7Eu8) | (b8 >> 7u8) == (b7 % 64) * 2 + b8 / 128,
        b8 & 0x7Fu8 == b8 % 128,
        (b7 & 0xC0u8) >> 5u8 == (b7 / 64) * 2,
{
}

/// An Intuos V1 x coordinate: bytes 2 and 3 big endian, shifted left by
/// one (the top bit falls off), with bit 1 of byte 9 as its low bit.
pub open spec fn intuos_v1_x_of(d: Seq<u8>) -> int {
    (2 * (256 * d[2] + d[3]) + (d[9] / 2) % 2) % 65536
}

/// An Intuos V1 y coordinate: bytes 4 and 5 big endian, shifted left by
/// one, with bit 0 of byte 9 as its low bit.
pub open spec fn intuos_v1_y_of(d: Seq<u8>) -> int {
    (2 * (256 * d[4] + d[5]) + d[9] % 2) % 65536
}

/// The Intuos V1 tool reader, whatever it remembers: a pen packet (bit 0x20
/// of byte 1) and a rotation packet (bits 0x02 and 0x08, without 0x20) of
/// 10 bytes or more, in range, are both reported at the position of bytes
/// 2..6 and 9. A pen packet reports its 11-bit pressure (byte 6, then bits
/// 6 and 7 of byte 7, then bit 0 of byte 1), its 7-bit tilts centred on 64
/// (x from bits 0..5 of byte 7 and bit 7 of byte 8, y from bits 0..6 of
/// byte 8), pen buttons in bits 1 and 2 of byte 1, and touches when the
/// pressure is above zero; a rotation report is marked "Rotation".
pub proof fn lemma_intuos_v1_tool_layout(p: IntuosV1Parser, d: Seq<u8>, raw: Seq<char>)
    requires
        d.len() >= 10,
        !(d[0] == 0x10 && d[1] == 0x20),
        d[1] != 0x80,
        d[1] & 0x20u8 != 0 || (d[1] & 0x02u8 != 0 && d[1] & 0x08u8 != 0),
    ensures
        ({
            let r = intuos_v1_tool(p, d, raw).1;
            &&& r is Some
            &&& r->0.x == intuos_v1_x_of(d)
            &&& r->0.y == intuos_v1_y_of(d)
            &&& r->0.hover_distance == d[9]
            &&& d[1] & 0x20u8 != 0 ==> {
                &&& r->0.pressure == 8 * d[6] + 2 * (d[7] / 64) + d[1] % 2
                &&& r->0.tilt_x == (d[7] % 64) * 2 + d[8] / 128 - 64
                &&& r->0.tilt_y == d[8] % 128 - 64
                &&& (r->0.buttons & 1u8 != 0) == (d[1] & 0x02u8 != 0)
                &&& (r->0.buttons & 2u8 != 0) == (d[1] & 0x04u8 != 0)
                &&& r->0.buttons < 4
                &&& r->0.status == pressed_status(r->0.pressure as int)
            }
            &&& d[1] & 0x20u8 == 0 ==> r->0.status == rotation_status()
        }),
{
    lemma_intuos_v1_bit_fields(d[7], d[8], d[9]);
    let b = (flag(has_bits(d[1], 0x02), 1) + flag(has_bits(d[1], 0x04), 2)) as u8;
    lemma_low_three_bits(b);
    lemma_low_three_bits(d[1]);
    assert(b < 4);
    assert((b % 2 == 1) == has_bits(d[1], 0x02));
    assert(((b / 2) % 2 == 1) == has_bits(d[1], 0x04));
}

/// Whatever it remembers, the Intuos V1 parser reports a pen packet and a
/// rotation packet of the same bytes at the same position: bytes 2..6 big
/// endian, doubled, with the low bits from byte 9.
pub proof fn lemma_intuos_v1_position(p: IntuosV1Parser, d: Seq<u8>)
    requires
        is_intuos_v1_pen_packet(d) || is_intuos_v1_rotation_packet(d),
    ensures
        p.step(d).1 is Some,
        p.step(d).1->0.x == intuos_v1_x_of(d),
        p.step(d).1->0.y == intuos_v1_y_of(d),
{
    lemma_intuos_v1_tool_layout(p, d, crate::report::hex_dump(d));
}

} // verus!
