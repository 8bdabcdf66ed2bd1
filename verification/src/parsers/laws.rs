//! How the parsers relate to each other: the Wacom driver layouts read the
//! packet after their leading byte as the plain layouts do, the variants
//! that share a layout give the same reports, and the Intuos V1 family
//! carries pen values over to rotation reports.
use crate::parsers::fallback::FallbackParser;
use crate::parsers::skip_byte::SkipByteParser;
use crate::parsers::veikk::{VeikkA15Parser, VeikkParser};
use crate::parsers::wacom::intuos::{IntuosParser, WacomDriverIntuosParser};
use crate::parsers::wacom::intuos3::{
    Intuos3ExtraAuxParser, Intuos3Parser, WacomDriverIntuos3Parser,
};
use crate::parsers::wacom::intuos4::{Intuos4Parser, WacomDriverIntuos4Parser};
use crate::parsers::wacom::intuos_pro::{IntuosProParser, WacomDriverIntuosProParser};
use crate::parsers::wacom::intuos_v1::{
    intuos_v1_tool, intuos_v1_pressure, intuos_v1_tilt_x, intuos_v1_tilt_y, intuos_x, intuos_y, IntuosV1Parser,
    WacomDriverIntuosV1Parser,
};
use crate::parsers::wacom::intuos_v2::{IntuosV2Parser, WacomDriverIntuosV2Parser};
use crate::parsers::wacom::intuos_v3::{IntuosV3Parser, WacomDriverIntuosV3Parser};
use crate::parsers::ReportParser;
use crate::report::{flag, has_bits, hex_dump, pen_view, rotation_status, TabletDataView};
use vstd::prelude::*;

verus! {

/// A report with its hex dump replaced by `raw`.
pub open spec fn with_raw(r: Option<TabletDataView>, raw: Seq<char>) -> Option<TabletDataView> {
    match r {
        Some(v) => Some(TabletDataView { raw_data: raw, ..v }),
        None => None,
    }
}

/// The one-byte-prefix layout reads the rest of the packet as the generic
/// layout does; only the dump covers the whole packet.
pub proof fn lemma_skip_byte_reads_generic_layout(d: Seq<u8>)
    requires
        d.len() > 0,
    ensures
        SkipByteParser.step(d).1 == with_raw(FallbackParser.step(d.skip(1)).1, hex_dump(d)),
{
}

/// The Veikk A15 gives the reports of the generic Veikk parser.
pub proof fn lemma_veikk_a15_reads_veikk_layout(d: Seq<u8>)
    ensures
        VeikkA15Parser.step(d).1 == VeikkParser.step(d).1,
{
}

/// The Wacom driver Intuos layout is the Intuos layout after one byte.
pub proof fn lemma_wacom_driver_intuos_skips_first_byte(d: Seq<u8>)
    requires
        d.len() >= 2,
    ensures
        WacomDriverIntuosParser.step(d).1 == IntuosParser.step(d.skip(1)).1,
{
}

/// The Wacom driver Intuos V1 layout: the packet after its first byte is
/// read by the Intuos V1 parser, which keeps its state; the dump covers the
/// whole packet.
pub proof fn lemma_wacom_driver_intuos_v1_skips_first_byte(p: IntuosV1Parser, d: Seq<u8>)
    requires
        d.len() >= 2,
    ensures
        (WacomDriverIntuosV1Parser { inner: p }).step(d) == (
            WacomDriverIntuosV1Parser { inner: p.step(d.skip(1)).0 },
            with_raw(p.step(d.skip(1)).1, hex_dump(d)),
        ),
{
}

/// The Wacom driver Intuos V2 layout: the Intuos V2 report of the packet
/// after its first byte, dumped whole.
pub proof fn lemma_wacom_driver_intuos_v2_skips_first_byte(d: Seq<u8>)
    requires
        d.len() >= 2,
    ensures
        (WacomDriverIntuosV2Parser { inner: IntuosV2Parser }).step(d).1 == with_raw(
            IntuosV2Parser.step(d.skip(1)).1,
            hex_dump(d),
        ),
{
}

/// The Wacom driver Intuos V3 layout: the Intuos V3 report of the packet
/// after its first byte, dumped whole.
pub proof fn lemma_wacom_driver_intuos_v3_skips_first_byte(d: Seq<u8>)
    requires
        d.len() >= 2,
    ensures
        (WacomDriverIntuosV3Parser { inner: IntuosV3Parser }).step(d).1 == with_raw(
            IntuosV3Parser.step(d.skip(1)).1,
            hex_dump(d),
        ),
{
}

/// The Wacom driver Intuos 3 layout: the Intuos 3 parser reads the packet
/// after its first byte; the dump covers the whole packet.
pub proof fn lemma_wacom_driver_intuos3_skips_first_byte(p: Intuos3Parser, d: Seq<u8>)
    requires
        d.len() >= 2,
    ensures
        (WacomDriverIntuos3Parser { inner: p }).step(d) == (
            WacomDriverIntuos3Parser { inner: p.step(d.skip(1)).0 },
            with_raw(p.step(d.skip(1)).1, hex_dump(d)),
        ),
{
}

/// The Wacom driver Intuos 4 layout: the Intuos 4 parser reads the packet
/// after its first byte; the dump covers the whole packet.
pub proof fn lemma_wacom_driver_intuos4_skips_first_byte(p: Intuos4Parser, d: Seq<u8>)
    requires
        d.len() >= 2,
    ensures
        (WacomDriverIntuos4Parser { inner: p }).step(d) == (
            WacomDriverIntuos4Parser { inner: p.step(d.skip(1)).0 },
            with_raw(p.step(d.skip(1)).1, hex_dump(d)),
        ),
{
}

/// The Wacom driver Intuos Pro layout: the Intuos Pro parser reads the
/// packet after its first byte; the dump covers the whole packet.
pub proof fn lemma_wacom_driver_intuos_pro_skips_first_byte(p: IntuosProParser, d: Seq<u8>)
    requires
        d.len() >= 2,
    ensures
        (WacomDriverIntuosProParser { inner: p }).step(d) == (
            WacomDriverIntuosProParser { inner: p.step(d.skip(1)).0 },
            with_raw(p.step(d.skip(1)).1, hex_dump(d)),
        ),
{
}

/// Apart from its extra express-key report (0x0C), the Intuos 3 variant
/// with extra keys reads packets as the Intuos 3 parser does.
pub proof fn lemma_intuos3_extra_aux_reads_intuos3(p: Intuos3Parser, d: Seq<u8>)
    requires
        d.len() > 0,
        d[0] != 0x0C,
    ensures
        (Intuos3ExtraAuxParser { inner: p }).step(d) == (
            Intuos3ExtraAuxParser { inner: p.step(d).0 },
            p.step(d).1,
        ),
{
}

/// A pen packet of the Intuos V1 family: report 0x02 or 0x10, ten bytes or
/// more, in range, with the pen bit 0x20 of byte 1 set.
pub open spec fn is_intuos_v1_pen_packet(d: Seq<u8>) -> bool {
    &&& d.len() >= 10
    &&& (d[0] == 0x02 || d[0] == 0x10)
    &&& !(d[0] == 0x10 && d[1] == 0x20)
    &&& d[1] != 0x80
    &&& has_bits(d[1], 0x20)
}

/// A rotation packet of the Intuos V1 family: like a pen packet, without
/// the pen bit, with bits 0x02 and 0x08 of byte 1 set.
pub open spec fn is_intuos_v1_rotation_packet(d: Seq<u8>) -> bool {
    &&& d.len() >= 10
    &&& (d[0] == 0x02 || d[0] == 0x10)
    &&& !(d[0] == 0x10 && d[1] == 0x20)
    &&& d[1] != 0x80
    &&& !has_bits(d[1], 0x20)
    &&& has_bits(d[1], 0x02)
    &&& has_bits(d[1], 0x08)
}

/// A rotation report right after a pen report repeats that pen report's
/// pressure, tilt and buttons, with the rotation packet's own position.
pub proof fn lemma_intuos_v1_rotation_repeats_pen(
    p: IntuosV1Parser,
    pen: Seq<u8>,
    rotation: Seq<u8>,
)
    requires
        is_intuos_v1_pen_packet(pen),
        is_intuos_v1_rotation_packet(rotation),
    ensures
        ({
            let (q, first) = p.step(pen);
            let (_, second) = q.step(rotation);
            &&& first is Some
            &&& second is Some
            &&& second->0.status == rotation_status()
            &&& second->0.pressure == first->0.pressure
            &&& second->0.tilt_x == first->0.tilt_x
            &&& second->0.tilt_y == first->0.tilt_y
            &&& second->0.buttons == first->0.buttons
        }),
{
}

/// The pen values an Intuos V1 pen packet leaves remembered: its pressure,
/// tilt and buttons.
pub open spec fn pen_memory(d: Seq<u8>) -> IntuosV1Parser {
    IntuosV1Parser {
        prev_pressure: intuos_v1_pressure(d[1], d[6], d[7]),
        prev_tilt_x: intuos_v1_tilt_x(d[7], d[8]),
        prev_tilt_y: intuos_v1_tilt_y(d[8]),
        prev_buttons: (flag(has_bits(d[1], 0x02), 1) + flag(has_bits(d[1], 0x04), 2)) as u8,
    }
}

/// The Intuos V1 parser after reading `packets`, starting from `p`.
pub open spec fn intuos_v1_after(p: IntuosV1Parser, packets: Seq<Seq<u8>>) -> IntuosV1Parser
    decreases packets.len(),
{
    if packets.len() == 0 {
        p
    } else {
        intuos_v1_after(p, packets.drop_last()).step(packets.last()).0
    }
}

/// What is remembered after `packets`: the values of the last pen packet
/// among them, or those of `p` when there is none.
pub open spec fn last_pen_memory(p: IntuosV1Parser, packets: Seq<Seq<u8>>) -> IntuosV1Parser
    decreases packets.len(),
{
    if packets.len() == 0 {
        p
    } else if is_intuos_v1_pen_packet(packets.last()) {
        pen_memory(packets.last())
    } else {
        last_pen_memory(p, packets.drop_last())
    }
}

/// A pen packet is reported with the values it leaves remembered, and only
/// pen packets change what is remembered.
pub proof fn lemma_intuos_v1_memory_step(p: IntuosV1Parser, d: Seq<u8>)
    ensures
        is_intuos_v1_pen_packet(d) ==> p.step(d).0 == pen_memory(d) && p.step(d).1 is Some
            && p.step(d).1->0.pressure == pen_memory(d).prev_pressure && p.step(d).1->0.tilt_x
            == pen_memory(d).prev_tilt_x && p.step(d).1->0.tilt_y == pen_memory(d).prev_tilt_y
            && p.step(d).1->0.buttons == pen_memory(d).prev_buttons,
        !is_intuos_v1_pen_packet(d) ==> p.step(d).0 == p,
{
}

/// Whatever came before, the Intuos V1 parser remembers the pressure, tilt
/// and buttons of the last pen packet (those it started with when there
/// was none).
pub proof fn lemma_intuos_v1_remembers_last_pen(p: IntuosV1Parser, packets: Seq<Seq<u8>>)
    ensures
        intuos_v1_after(p, packets) == last_pen_memory(p, packets),
    decreases packets.len(),
{
    if packets.len() > 0 {
        lemma_intuos_v1_remembers_last_pen(p, packets.drop_last());
        lemma_intuos_v1_memory_step(intuos_v1_after(p, packets.drop_last()), packets.last());
    }
}

/// A rotation packet leaves the parser as it is and is reported with its
/// own position and hover distance and the remembered pressure, tilt and
/// buttons; after any packets, those are the last pen packet's.
pub proof fn lemma_intuos_v1_rotation_report(
    p: IntuosV1Parser,
    packets: Seq<Seq<u8>>,
    r: Seq<u8>,
)
    requires
        is_intuos_v1_rotation_packet(r),
    ensures
        ({
            let q = intuos_v1_after(p, packets);
            let m = last_pen_memory(p, packets);
            q.step(r) == (
                q,
                Some(
                    pen_view(
                        rotation_status(),
                        intuos_x(r),
                        intuos_y(r),
                        m.prev_pressure,
                        m.prev_tilt_x,
                        m.prev_tilt_y,
                        m.prev_buttons,
                        false,
                        r[9],
                        hex_dump(r),
                    ),
                ),
            )
        }),
{
    lemma_intuos_v1_remembers_last_pen(p, packets);
}

/// The tool reader on a rotation packet: the parser is unchanged and the
/// report carries the packet's position and hover distance with the
/// remembered pressure, tilt and buttons, and `raw` as its dump.
pub proof fn lemma_intuos_v1_tool_rotation(p: IntuosV1Parser, r: Seq<u8>, raw: Seq<char>)
    requires
        is_intuos_v1_rotation_packet(r),
    ensures
        intuos_v1_tool(p, r, raw) == (
            p,
            Some(
                pen_view(
                    rotation_status(),
                    intuos_x(r),
                    intuos_y(r),
                    p.prev_pressure,
                    p.prev_tilt_x,
                    p.prev_tilt_y,
                    p.prev_buttons,
                    false,
                    r[9],
                    raw,
                ),
            ),
        ),
{
}

} // verus!
