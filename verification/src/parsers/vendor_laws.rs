//! Where the parsers of the smaller vendors find the pen's position,
//! pressure, tilt and buttons, stated byte by byte over the raw packet.
use crate::parsers::acepen::AcepenParser;
use crate::parsers::fallback::FallbackParser;
use crate::parsers::floogoo::FlooGooParser;
use crate::parsers::genius::{GeniusParserV1, GeniusParserV2};
use crate::parsers::inspiroy::InspiroyParser;
use crate::parsers::layout_laws::{
    lemma_second_and_third_bits, lemma_three_flags, lemma_two_flags,
    little_endian_pen, pressed_status, signed_byte, three_buttons, two_buttons,
};
use crate::parsers::lifetec::LifetecParser;
use crate::parsers::robotpen::RobotPenParser;
use crate::parsers::tenmoon::TenMoonParser;
use crate::parsers::veikk::{
    veikk_tablet_report, VeikkA15Parser, VeikkParser, VeikkTiltParser, VeikkV1Parser,
};
use crate::parsers::viewsonic::ViewSonicParser;
use crate::parsers::xencelabs::XenceLabsParser;
use crate::parsers::xenx::XenxParser;
use crate::parsers::ReportParser;
use crate::report::{
    aux_status, contact_status, hover_status, mouse_status, out_of_range_status, TabletDataView,
};
use vstd::prelude::*;

verus! {

/// The generic layout reads every packet of 8 bytes or more: position and
/// pressure little endian, no tilt and no buttons. Status 0xC0 and 0 are
/// out of range (and disconnected); any other status touches when its bit 0
/// is set or the pressure is above zero, and hovers otherwise.
pub proof fn lemma_fallback_layout(d: Seq<u8>)
    ensures
        d.len() < 8 <==> FallbackParser.step(d).1 is None,
        d.len() >= 8 ==> {
            let r = FallbackParser.step(d).1->0;
            let pressure = d[6] + 256 * d[7];
            &&& r.x == d[2] + 256 * d[3]
            &&& r.y == d[4] + 256 * d[5]
            &&& r.pressure == pressure
            &&& r.tilt_x == 0 && r.tilt_y == 0 && r.buttons == 0 && !r.eraser
            &&& (d[1] == 0xC0 || d[1] == 0) ==> r.status == out_of_range_status() && !r.is_connected
            &&& (d[1] != 0xC0 && d[1] != 0) ==> r.is_connected && r.status == (if d[1] & 1u8 != 0
                || pressure > 0 {
                contact_status()
            } else {
                hover_status()
            })
        },
{
}

/// A Genius pen report: x in bytes 1 and 2, y in bytes 3 and 4 (little
/// endian), pressure in bytes 6 and 7 only while bit 0x04 of byte 5 is set,
/// and the pen buttons in bits 0x08 and 0x10 of byte 5.
pub open spec fn genius_pen(d: Seq<u8>, r: Option<TabletDataView>) -> bool {
    let pressure = if d[5] & 0x04u8 != 0 {
        d[6] + 256 * d[7]
    } else {
        0
    };
    &&& r is Some
    &&& r->0.x == d[1] + 256 * d[2]
    &&& r->0.y == d[3] + 256 * d[4]
    &&& r->0.pressure == pressure
    &&& r->0.status == pressed_status(pressure)
    &&& two_buttons(r->0.buttons, d[5], 0x08, 0x10)
}

/// Both Genius layouts read their pen reports (0x10 for the first, 0x02 for
/// the second, 8 bytes or more) alike; the first reads a mouse report
/// (0x11, 7 bytes or more) with x in bytes 2 and 3, y in 4 and 5 and its
/// three buttons in bits 0..2 of byte 1.
pub proof fn lemma_genius_layout(d: Seq<u8>)
    ensures
        d.len() >= 8 && d[0] == 0x10 ==> genius_pen(d, GeniusParserV1.step(d).1),
        d.len() >= 8 && d[0] == 0x02 ==> genius_pen(d, GeniusParserV2.step(d).1),
        d.len() >= 7 && d[0] == 0x11 ==> {
            let r = GeniusParserV1.step(d).1;
            &&& r is Some
            &&& r->0.status == mouse_status()
            &&& r->0.x == d[2] + 256 * d[3]
            &&& r->0.y == d[4] + 256 * d[5]
            &&& r->0.pressure == 0
            &&& three_buttons(r->0.buttons, d[1], 0x01, 0x02, 0x04)
        },
{
    if d.len() >= 8 {
        lemma_two_flags(d[5], 0x08, 0x10);
    }
    if d.len() >= 7 {
        lemma_three_flags(d[1], 0x01, 0x02, 0x04);
    }
}

/// A Genius key report (0x05, 4 bytes or more) names one of eight keys in
/// byte 3, two codes per key: codes 1 and 2 are key 0, 3 and 4 key 1, up to
/// 15 and 16 for key 7; code 0 and codes above 16 hold no key.
pub proof fn lemma_genius_key_report(d: Seq<u8>)
    requires
        d.len() >= 4,
        d[0] == 0x05,
    ensures
        GeniusParserV2.step(d).1 is Some,
        GeniusParserV2.step(d).1->0.status == aux_status(),
        forall|k: u8|
            k < 8 && (d[3] == 2 * k + 1 || d[3] == 2 * k + 2) ==> GeniusParserV2.step(d).1->0.buttons
                == 1u8 << k,
        d[3] == 0 || d[3] > 16 ==> GeniusParserV2.step(d).1->0.buttons == 0,
{
}

/// A Lifetec packet of 8 bytes or more with report id 0x02 is a pen report:
/// x in bytes 1 and 2, y in 3 and 4, pressure in 6 and 7 (little endian),
/// pen buttons in bits 0x08 and 0x10 of byte 5; any other packet gives none.
pub proof fn lemma_lifetec_layout(d: Seq<u8>)
    ensures
        d.len() >= 8 && d[0] == 0x02 ==> {
            let r = LifetecParser.step(d).1;
            &&& r is Some
            &&& r->0.x == d[1] + 256 * d[2]
            &&& r->0.y == d[3] + 256 * d[4]
            &&& r->0.pressure == d[6] + 256 * d[7]
            &&& r->0.status == pressed_status(d[6] + 256 * d[7])
            &&& two_buttons(r->0.buttons, d[5], 0x08, 0x10)
        },
        d.len() < 8 || d[0] != 0x02 ==> LifetecParser.step(d).1 is None,
{
    if d.len() >= 8 {
        lemma_two_flags(d[5], 0x08, 0x10);
    }
}

/// A XENX pen report (0x01, status not 0, 8 bytes or more) is little
/// endian, with pen buttons in bits 0x02 and 0x04 of byte 1 and the eraser
/// in bit 0x40.
pub proof fn lemma_xenx_pen_layout(d: Seq<u8>)
    requires
        d.len() >= 8,
        d[0] == 0x01,
        d[1] != 0,
    ensures
        little_endian_pen(d, XenxParser.step(d).1),
        two_buttons(XenxParser.step(d).1->0.buttons, d[1], 0x02, 0x04),
        XenxParser.step(d).1->0.eraser == (d[1] & 0x40u8 != 0),
{
    lemma_two_flags(d[1], 0x02, 0x04);
}

/// A XENX key report (0x02, 12 bytes or more) has key `i` down exactly
/// when byte `2 + i` is not zero.
pub proof fn lemma_xenx_key_report(d: Seq<u8>)
    requires
        d.len() >= 12,
        d[0] == 0x02,
    ensures
        XenxParser.step(d).1 is Some,
        XenxParser.step(d).1->0.status == aux_status(),
        forall|i: u8|
            i < 8 ==> ((XenxParser.step(d).1->0.buttons >> i) & 1u8 == 1u8) == (d[2 + i] != 0),
{
    let b0: u8 = if d[2] != 0 { 1 } else { 0 };
    let b1: u8 = if d[3] != 0 { 1 } else { 0 };
    let b2: u8 = if d[4] != 0 { 1 } else { 0 };
    let b3: u8 = if d[5] != 0 { 1 } else { 0 };
    let b4: u8 = if d[6] != 0 { 1 } else { 0 };
    let b5: u8 = if d[7] != 0 { 1 } else { 0 };
    let b6: u8 = if d[8] != 0 { 1 } else { 0 };
    let b7: u8 = if d[9] != 0 { 1 } else { 0 };
    let m = XenxParser.step(d).1->0.buttons;
    assert(m == b0 + 2 * b1 + 4 * b2 + 8 * b3 + 16 * b4 + 32 * b5 + 64 * b6 + 128 * b7);
    assert forall|i: u8| i < 8 implies ((m >> i) & 1u8 == 1u8) == (d[2 + i] != 0) by {
        assert(forall|i: u8|
            i < 8 ==> (m >> i) & 1u8 == (if i == 0 {
                b0
            } else if i == 1 {
                b1
            } else if i == 2 {
                b2
            } else if i == 3 {
                b3
            } else if i == 4 {
                b4
            } else if i == 5 {
                b5
            } else if i == 6 {
                b6
            } else {
                b7
            })) by (bit_vector)
            requires
                b0 <= 1 && b1 <= 1 && b2 <= 1 && b3 <= 1 && b4 <= 1 && b5 <= 1 && b6 <= 1 && b7
                    <= 1,
                m == b0 + 2 * b1 + 4 * b2 + 8 * b3 + 16 * b4 + 32 * b5 + 64 * b6 + 128 * b7,
        ;
    }
}

/// A XenceLabs packet whose status has the high nibble 0xF (3 bytes or
/// more) is a key report with the keys of byte 2; one with bit 0x20 and
/// another high nibble (10 bytes or more) is a little-endian pen report
/// with signed tilt bytes 8 and 9, pen buttons in bits 0x02, 0x04 and 0x08
/// and the eraser in bit 0x40.
pub proof fn lemma_xencelabs_layout(d: Seq<u8>)
    ensures
        d.len() >= 3 && d[1] & 0xF0u8 == 0xF0u8 ==> {
            let r = XenceLabsParser.step(d).1;
            r is Some && r->0.status == aux_status() && r->0.buttons == d[2]
        },
        d.len() >= 10 && d[1] & 0xF0u8 != 0xF0u8 && d[1] & 0x20u8 != 0 ==> {
            let r = XenceLabsParser.step(d).1;
            &&& little_endian_pen(d, r)
            &&& r->0.tilt_x == signed_byte(d[8])
            &&& r->0.tilt_y == signed_byte(d[9])
            &&& three_buttons(r->0.buttons, d[1], 0x02, 0x04, 0x08)
            &&& r->0.eraser == (d[1] & 0x40u8 != 0)
        },
        d.len() >= 2 && d[1] & 0xF0u8 != 0xF0u8 && d[1] & 0x20u8 == 0 ==> XenceLabsParser.step(
            d,
        ).1 is None,
{
    if d.len() >= 10 {
        lemma_three_flags(d[1], 0x02, 0x04, 0x08);
    }
}

/// A ViewSonic WoodPad packet of 14 bytes or more with bits 0 and 1 of byte
/// 9 set is a pen report: x in bytes 1 and 2, y in 5 and 6, pressure in 10
/// and 11 only while bit 0x04 of byte 9 is set, signed tilt bytes 12 and
/// 13, pen buttons in bits 0x08 and 0x10 of byte 9; other packets give none.
pub proof fn lemma_viewsonic_layout(d: Seq<u8>)
    ensures
        d.len() >= 14 && d[9] & 3u8 == 3 ==> {
            let r = ViewSonicParser.step(d).1;
            let pressure = if d[9] & 0x04u8 != 0 {
                d[10] + 256 * d[11]
            } else {
                0
            };
            &&& r is Some
            &&& r->0.x == d[1] + 256 * d[2]
            &&& r->0.y == d[5] + 256 * d[6]
            &&& r->0.pressure == pressure
            &&& r->0.status == pressed_status(pressure)
            &&& r->0.tilt_x == signed_byte(d[12])
            &&& r->0.tilt_y == signed_byte(d[13])
            &&& two_buttons(r->0.buttons, d[9], 0x08, 0x10)
        },
        d.len() < 14 || d[9] & 3u8 != 3 ==> ViewSonicParser.step(d).1 is None,
{
    if d.len() >= 14 {
        lemma_two_flags(d[9], 0x08, 0x10);
    }
}

/// An Acepen pen report (byte 1 0x41, high nibble of byte 2 0xA, 11 bytes
/// or more): x in bytes 3 and 4, y in 5 and 6, pressure in 7 and 8 (little
/// endian), signed tilt bytes 9 and 10, pen buttons in bits 0x02 and 0x04
/// of byte 2; the key state is kept. A key report (byte 1 0x42) reports the
/// key state it leaves.
pub proof fn lemma_acepen_layout(p: AcepenParser, d: Seq<u8>)
    requires
        d.len() >= 11,
    ensures
        d[1] == 0x41 && d[2] & 0xF0u8 == 0xA0u8 ==> {
            let (q, r) = p.step(d);
            &&& q == p
            &&& r is Some
            &&& r->0.x == d[3] + 256 * d[4]
            &&& r->0.y == d[5] + 256 * d[6]
            &&& r->0.pressure == d[7] + 256 * d[8]
            &&& r->0.status == pressed_status(d[7] + 256 * d[8])
            &&& r->0.tilt_x == signed_byte(d[9])
            &&& r->0.tilt_y == signed_byte(d[10])
            &&& two_buttons(r->0.buttons, d[2], 0x02, 0x04)
        },
        d[1] == 0x42 ==> {
            let (q, r) = p.step(d);
            r is Some && r->0.status == aux_status() && r->0.buttons == q.aux_state
        },
{
    lemma_two_flags(d[2], 0x02, 0x04);
}

/// A FlooGoo pen report (id 0x01, bit 0x20 of byte 1, 12 bytes or more) is
/// little endian, with pen buttons in bits 0x02 and 0x04 of byte 1 and the
/// eraser in bit 0x08; its tilt is the signed word of bytes 8 and 9 (x) or
/// 10 and 11 (y) in hundredths of a degree, within half a degree.
pub proof fn lemma_floogoo_layout(d: Seq<u8>)
    requires
        d.len() >= 12,
        d[0] == 0x01,
        d[1] & 0x20u8 != 0,
    ensures
        little_endian_pen(d, FlooGooParser.step(d).1),
        two_buttons(FlooGooParser.step(d).1->0.buttons, d[1], 0x02, 0x04),
        FlooGooParser.step(d).1->0.eraser == (d[1] & 0x08u8 != 0),
        -12800 <= signed_word(d[8], d[9]) <= 12700 ==> -50 <= signed_word(d[8], d[9]) - 100
            * FlooGooParser.step(d).1->0.tilt_x <= 50,
        -12800 <= signed_word(d[10], d[11]) <= 12700 ==> -50 <= signed_word(d[10], d[11]) - 100
            * FlooGooParser.step(d).1->0.tilt_y <= 50,
{
    lemma_two_flags(d[1], 0x02, 0x04);
}

/// A little-endian 16-bit two's-complement value.
pub open spec fn signed_word(lo: u8, hi: u8) -> int {
    if lo + 256 * hi < 32768 {
        lo + 256 * hi
    } else {
        lo + 256 * hi - 65536
    }
}

/// A RobotPen packet of 12 bytes or more with byte 1 0x42 is a pen report:
/// x in bytes 6 and 7, y in 8 and 9, pressure in 10 and 11 (little endian),
/// and the one pen button in bit 0x02 of byte 11; other packets give none.
pub proof fn lemma_robotpen_layout(d: Seq<u8>)
    ensures
        d.len() >= 12 && d[1] == 0x42 ==> {
            let r = RobotPenParser.step(d).1;
            &&& r is Some
            &&& r->0.x == d[6] + 256 * d[7]
            &&& r->0.y == d[8] + 256 * d[9]
            &&& r->0.pressure == d[10] + 256 * d[11]
            &&& r->0.status == pressed_status(d[10] + 256 * d[11])
            &&& r->0.buttons == (if d[11] & 0x02u8 != 0 {
                1u8
            } else {
                0u8
            })
        },
        d.len() < 12 || d[1] != 0x42 ==> RobotPenParser.step(d).1 is None,
{
}

/// The Inspiroy layout (8 bytes or more, status not 0): status 0xE0 and
/// 0xE3 are key reports with the keys of byte 4, 0xF0 and 0xF1 key reports
/// with no key down, any other status a little-endian pen report that
/// touches with pressure, hovers without pressure while bit 0 of the status
/// is set and is out of range otherwise; its pen buttons are bits 1..3 of
/// the status, the eraser bit 4, and its tilt bytes 10 and 11 with their
/// sign reversed.
pub proof fn lemma_inspiroy_layout(d: Seq<u8>)
    requires
        d.len() >= 8,
        d[1] != 0,
    ensures
        d[1] == 0xE0 || d[1] == 0xE3 ==> InspiroyParser.step(d).1->0.status == aux_status()
            && InspiroyParser.step(d).1->0.buttons == d[4],
        d[1] == 0xF0 || d[1] == 0xF1 ==> InspiroyParser.step(d).1->0.status == aux_status()
            && InspiroyParser.step(d).1->0.buttons == 0,
        d[1] != 0xE0 && d[1] != 0xE3 && d[1] != 0xF0 && d[1] != 0xF1 ==> {
            let r = InspiroyParser.step(d).1->0;
            let pressure = d[6] + 256 * d[7];
            &&& r.x == d[2] + 256 * d[3]
            &&& r.y == d[4] + 256 * d[5]
            &&& r.pressure == pressure
            &&& pressure > 0 ==> r.status == contact_status()
            &&& pressure == 0 && d[1] & 1u8 != 0 ==> r.status == hover_status()
            &&& pressure == 0 && d[1] & 1u8 == 0 ==> r.status == out_of_range_status()
            &&& three_buttons(r.buttons, d[1], 0x02, 0x04, 0x08)
            &&& r.eraser == (d[1] & 0x10u8 != 0)
            &&& d.len() > 10 && d[10] != 0x80 ==> r.tilt_x == -signed_byte(d[10])
            &&& d.len() > 11 && d[11] != 0x80 ==> r.tilt_y == -signed_byte(d[11])
            &&& d.len() <= 10 ==> r.tilt_x == 0
            &&& d.len() <= 11 ==> r.tilt_y == 0
        },
        InspiroyParser.step(d).1 is Some,
{
    lemma_three_shifted_bits(d[1]);
}

/// Bits 1, 2 and 3 of a byte moved down to bits 0, 1 and 2.
pub proof fn lemma_three_shifted_bits(b: u8)
    by (bit_vector)
    ensures
        three_buttons((b >> 1u8) & 7u8, b, 0x02, 0x04, 0x08),
{
}

/// A Veikk pen report (11 bytes or more): x in bytes 3 and 4, y in 6 and 7,
/// pressure in 9 and 10 (little endian), pen buttons in bits 0x02 and 0x04
/// of byte 2, out of range unless bit 0x20 of byte 2 is set; with tilt and
/// 13 bytes, signed tilt bytes 11 and 12, else none.
pub proof fn lemma_veikk_pen_layout(d: Seq<u8>, has_tilt: bool)
    requires
        d.len() >= 11,
    ensures
        ({
            let r = veikk_tablet_report(d, has_tilt);
            let pressure = d[9] + 256 * d[10];
            &&& r is Some
            &&& r->0.x == d[3] + 256 * d[4]
            &&& r->0.y == d[6] + 256 * d[7]
            &&& r->0.pressure == pressure
            &&& d[2] & 0x20u8 != 0 ==> r->0.status == pressed_status(pressure)
            &&& d[2] & 0x20u8 == 0 ==> r->0.status == out_of_range_status()
            &&& two_buttons(r->0.buttons, d[2], 0x02, 0x04)
            &&& has_tilt && d.len() >= 13 ==> r->0.tilt_x == signed_byte(d[11]) && r->0.tilt_y
                == signed_byte(d[12])
            &&& !(has_tilt && d.len() >= 13) ==> r->0.tilt_x == 0 && r->0.tilt_y == 0
        }),
{
    lemma_second_and_third_bits(d[2]);
}

/// Which packets each Veikk variant reads as pen reports and which as key
/// reports: the generic parser and the A15 pen reports on bit 0x20 of byte
/// 2 (byte 1 not 0x43), keys of byte 4 on byte 2 equal to 1; V1 pen
/// reports on byte 1 0x41 (byte 2 not 0xC0, report id not 0x03), keys of
/// byte 1 on report id 0x03; the tilt variant pen reports with tilt on
/// byte 1 0x41 (byte 2 not 0xC0), keys of byte 4 on byte 1 0x42.
pub proof fn lemma_veikk_variants(d: Seq<u8>)
    requires
        d.len() >= 3,
    ensures
        d[1] != 0x43 && d[2] & 0x20u8 != 0 ==> VeikkParser.step(d).1 == veikk_tablet_report(
            d,
            false,
        ) && VeikkA15Parser.step(d).1 == veikk_tablet_report(d, false),
        d.len() >= 6 && d[1] != 0x43 && d[2] == 1 ==> VeikkParser.step(d).1->0.status
            == aux_status() && VeikkParser.step(d).1->0.buttons == d[4],
        d[0] != 0x03 && d[1] == 0x41 && d[2] != 0xC0 ==> VeikkV1Parser.step(d).1
            == veikk_tablet_report(d, false),
        d[0] == 0x03 ==> VeikkV1Parser.step(d).1->0.status == aux_status()
            && VeikkV1Parser.step(d).1->0.buttons == d[1],
        d[1] == 0x41 && d[2] != 0xC0 ==> VeikkTiltParser.step(d).1 == veikk_tablet_report(d, true),
        d.len() >= 6 && d[1] == 0x42 ==> VeikkTiltParser.step(d).1->0.status == aux_status()
            && VeikkTiltParser.step(d).1->0.buttons == d[4],
{
    assert(1u8 & 0x20u8 == 0) by (bit_vector);
}

/// A 10moon pen report (13 bytes or more, byte 11 0xFF): x in bytes 1 and
/// 2, y in 3 and 4, big endian; the reading of bytes 5 and 6 (big endian),
/// less 50 while a pen button is held (bits 0x06 of byte 9), falls from
/// 0x0672 with no contact to 0 as the pen presses harder. Bit 0x04 of byte
/// 9 is the first pen button, both bits 0x06 the second.
pub proof fn lemma_tenmoon_pen_layout(d: Seq<u8>)
    requires
        d.len() >= 13,
        d[11] == 0xFF,
    ensures
        ({
            let r = TenMoonParser.step(d).1;
            let offset: int = if d[9] & 6u8 != 0 {
                50
            } else {
                0
            };
            let reading = 256 * d[5] + d[6];
            &&& r is Some
            &&& r->0.x == 256 * d[1] + d[2]
            &&& r->0.y == 256 * d[3] + d[4]
            &&& r->0.pressure == vstd::math::max(0, 0x0672 - vstd::math::max(0, reading - offset))
            &&& r->0.status == pressed_status(r->0.pressure as int)
            &&& (r->0.buttons & 1u8 != 0) == (d[9] & 0x04u8 != 0)
            &&& (r->0.buttons & 2u8 != 0) == (d[9] & 6u8 == 6u8)
            &&& r->0.buttons < 4
        }),
{
    let b = TenMoonParser.step(d).1->0.buttons;
    crate::parsers::layout_laws::lemma_low_three_bits(b);
}

/// A 10moon key report (13 bytes or more, byte 11 not 0xFF) holds one key
/// code in byte 12: 0x31 is key 0, 0x23 key 6, 0x32 key 7, and 0x33 keys 1
/// to 5, each down while its bit of byte 11 (0x80 down to 0x08) is clear.
/// Any other code holds no key.
pub proof fn lemma_tenmoon_key_report(d: Seq<u8>)
    requires
        d.len() >= 13,
        d[11] != 0xFF,
    ensures
        TenMoonParser.step(d).1 is Some,
        TenMoonParser.step(d).1->0.status == aux_status(),
        d[12] == 0x31 ==> TenMoonParser.step(d).1->0.buttons == 1,
        d[12] == 0x23 ==> TenMoonParser.step(d).1->0.buttons == 0x40,
        d[12] == 0x32 ==> TenMoonParser.step(d).1->0.buttons == 0x80,
        d[12] == 0x33 ==> {
            let m = TenMoonParser.step(d).1->0.buttons;
            &&& (m & 0x02u8 != 0) == (d[11] & 0x80u8 == 0)
            &&& (m & 0x04u8 != 0) == (d[11] & 0x40u8 == 0)
            &&& (m & 0x08u8 != 0) == (d[11] & 0x20u8 == 0)
            &&& (m & 0x10u8 != 0) == (d[11] & 0x10u8 == 0)
            &&& (m & 0x20u8 != 0) == (d[11] & 0x08u8 == 0)
            &&& m & 0xC1u8 == 0
        },
        d[12] != 0x31 && d[12] != 0x23 && d[12] != 0x32 && d[12] != 0x33
            ==> TenMoonParser.step(d).1->0.buttons == 0,
{
    if d[12] == 0x33 {
        let a = d[11];
        let b1: u8 = if a & 0x80u8 == 0 { 1 } else { 0 };
        let b2: u8 = if a & 0x40u8 == 0 { 1 } else { 0 };
        let b3: u8 = if a & 0x20u8 == 0 { 1 } else { 0 };
        let b4: u8 = if a & 0x10u8 == 0 { 1 } else { 0 };
        let b5: u8 = if a & 0x08u8 == 0 { 1 } else { 0 };
        let m = TenMoonParser.step(d).1->0.buttons;
        assert(m == 2 * b1 + 4 * b2 + 8 * b3 + 16 * b4 + 32 * b5);
        assert({
            &&& (m & 0x02u8 != 0) == (b1 == 1)
            &&& (m & 0x04u8 != 0) == (b2 == 1)
            &&& (m & 0x08u8 != 0) == (b3 == 1)
            &&& (m & 0x10u8 != 0) == (b4 == 1)
            &&& (m & 0x20u8 != 0) == (b5 == 1)
            &&& m & 0xC1u8 == 0
        }) by (bit_vector)
            requires
                b1 <= 1 && b2 <= 1 && b3 <= 1 && b4 <= 1 && b5 <= 1,
                m == 2 * b1 + 4 * b2 + 8 * b3 + 16 * b4 + 32 * b5,
        ;
    }
}

} // verus!
