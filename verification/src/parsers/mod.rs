//! Vendor report parsers and the choice of a parser by its configured name.
use crate::report::{report_view, TabletData, TabletDataView};
use crate::text::{chars_of, contains_str, text_contains};
use vstd::prelude::*;

pub mod acepen;
pub mod bosto;
pub mod choice_laws;
pub mod fallback;
pub mod floogoo;
pub mod genius;
pub mod inspiroy;
pub mod laws;
pub mod layout_laws;
pub mod lifetec;
pub mod robotpen;
pub mod skip_byte;
pub mod tenmoon;
pub mod vendor_laws;
pub mod uclogic;
pub mod veikk;
pub mod wacom;
pub mod wacom_laws;
pub mod viewsonic;
pub mod xencelabs;
pub mod xenx;
pub mod xp_pen;

verus! {

/// A decoder of raw HID packets into [`TabletData`].
///
/// A parser may keep state between packets (the aux button mask of Acepen,
/// the last pen values of the Intuos V1 family, ...). `step` states, for
/// every packet, the parser after the packet and the report it yields; a
/// malformed or empty packet yields `None`.
pub trait ReportParser: Sized {
    /// The parser state after reading `data`, and the report it yields.
    spec fn step(&self, data: Seq<u8>) -> (Self, Option<TabletDataView>);

    fn parse(&mut self, data: &[u8]) -> (r: Option<TabletData>)
        ensures
            (*final(self), report_view(r)) == old(self).step(data@),
    ;
}


/// Every parser a tablet configuration can name.
pub enum AnyParser {
    Acepen(acepen::AcepenParser),
    Bosto(bosto::BostoParser),
    FlooGoo(floogoo::FlooGooParser),
    GeniusV2(genius::GeniusParserV2),
    GeniusV1(genius::GeniusParserV1),
    Lifetec(lifetec::LifetecParser),
    RobotPen(robotpen::RobotPenParser),
    SkipByte(skip_byte::SkipByteParser),
    TenMoon(tenmoon::TenMoonParser),
    UCLogicV1(uclogic::UCLogicV1Parser),
    UCLogicV2(uclogic::UCLogicV2Parser),
    UCLogicTilt(uclogic::UCLogicTiltParser),
    UCLogic(uclogic::UCLogicParser),
    ViewSonic(viewsonic::ViewSonicParser),
    XenceLabs(xencelabs::XenceLabsParser),
    Xenx(xenx::XenxParser),
    XpPenGen2(xp_pen::extended::XpPenGen2Parser),
    XpPenDeco03(xp_pen::extended::XpPenDeco03Parser),
    XpPenOffsetPressure(xp_pen::extended::XpPenOffsetPressureParser),
    XpPenOffsetAux(xp_pen::extended::XpPenOffsetAuxParser),
    XpPen(xp_pen::extended::XpPenParser),
    VeikkA15(veikk::VeikkA15Parser),
    VeikkTilt(veikk::VeikkTiltParser),
    VeikkV1(veikk::VeikkV1Parser),
    Veikk(veikk::VeikkParser),
    Inspiroy(inspiroy::InspiroyParser),
    Bamboo(wacom::bamboo::BambooParser),
    BambooPad(wacom::bamboo_pad::BambooPadParser),
    BambooV2Aux(wacom::bamboo_v2::BambooV2AuxParser),
    Graphire(wacom::graphire::GraphireParser),
    WacomDriverIntuos(wacom::intuos::WacomDriverIntuosParser),
    Intuos(wacom::intuos::IntuosParser),
    IntuosV1(wacom::intuos_v1::IntuosV1Parser),
    WacomDriverIntuosV1(wacom::intuos_v1::WacomDriverIntuosV1Parser),
    WacomDriverIntuosV2(wacom::intuos_v2::WacomDriverIntuosV2Parser),
    WacomDriverIntuosV3(wacom::intuos_v3::WacomDriverIntuosV3Parser),
    WacomDriverIntuos4(wacom::intuos4::WacomDriverIntuos4Parser),
    WacomDriverIntuosPro(wacom::intuos_pro::WacomDriverIntuosProParser),
    WacomDriverIntuos3(wacom::intuos3::WacomDriverIntuos3Parser),
    Intuos3ExtraAux(wacom::intuos3::Intuos3ExtraAuxParser),
    PL(wacom::pl::PLParser),
    PTU(wacom::ptu::PTUParser),
    Wacom64bAux(wacom::misc::Wacom64bAuxParser),
    Fallback(fallback::FallbackParser),
}

/// The parser chosen for a configured parser name: the first rule, in
/// order, whose pattern occurs in the name; the generic layout otherwise.
pub open spec fn parser_for_name(name: Seq<char>) -> AnyParser {
    if text_contains(name, "Acepen"@) {
        AnyParser::Acepen(acepen::AcepenParser { aux_state: 0 })
    } else if text_contains(name, "Bosto"@) {
        AnyParser::Bosto(bosto::BostoParser)
    } else if text_contains(name, "FlooGoo"@) {
        AnyParser::FlooGoo(floogoo::FlooGooParser)
    } else if text_contains(name, "GeniusReportParserV2"@) {
        AnyParser::GeniusV2(genius::GeniusParserV2)
    } else if text_contains(name, "Genius"@) {
        AnyParser::GeniusV1(genius::GeniusParserV1)
    } else if text_contains(name, "Lifetec"@) {
        AnyParser::Lifetec(lifetec::LifetecParser)
    } else if text_contains(name, "RobotPen"@) {
        AnyParser::RobotPen(robotpen::RobotPenParser)
    } else if text_contains(name, "SkipByteTabletReportParser"@) {
        AnyParser::SkipByte(skip_byte::SkipByteParser)
    } else if text_contains(name, "10moon"@) {
        AnyParser::TenMoon(tenmoon::TenMoonParser)
    } else if text_contains(name, "UCLogicV1"@) {
        AnyParser::UCLogicV1(uclogic::UCLogicV1Parser)
    } else if text_contains(name, "UCLogicV2"@) {
        AnyParser::UCLogicV2(uclogic::UCLogicV2Parser)
    } else if text_contains(name, "UCLogicTilt"@) {
        AnyParser::UCLogicTilt(uclogic::UCLogicTiltParser)
    } else if text_contains(name, "UCLogic"@) {
        AnyParser::UCLogic(uclogic::UCLogicParser)
    } else if text_contains(name, "WoodPad"@) {
        AnyParser::ViewSonic(viewsonic::ViewSonicParser)
    } else if text_contains(name, "XenceLabs"@) {
        AnyParser::XenceLabs(xencelabs::XenceLabsParser)
    } else if text_contains(name, "XENX"@) {
        AnyParser::Xenx(xenx::XenxParser)
    } else if text_contains(name, "XP_PenGen2"@) {
        AnyParser::XpPenGen2(xp_pen::extended::XpPenGen2Parser)
    } else if text_contains(name, "XP_PenDeco03"@) {
        AnyParser::XpPenDeco03(xp_pen::extended::XpPenDeco03Parser)
    } else if text_contains(name, "XP_PenOffsetPressure"@) {
        AnyParser::XpPenOffsetPressure(xp_pen::extended::XpPenOffsetPressureParser)
    } else if text_contains(name, "XP_PenOffsetAux"@) {
        AnyParser::XpPenOffsetAux(xp_pen::extended::XpPenOffsetAuxParser)
    } else if text_contains(name, "XP_Pen"@) {
        AnyParser::XpPen(xp_pen::extended::XpPenParser)
    } else if text_contains(name, "VeikkA15"@) {
        AnyParser::VeikkA15(veikk::VeikkA15Parser)
    } else if text_contains(name, "VeikkTilt"@) {
        AnyParser::VeikkTilt(veikk::VeikkTiltParser)
    } else if text_contains(name, "VeikkV1"@) {
        AnyParser::VeikkV1(veikk::VeikkV1Parser)
    } else if text_contains(name, "Veikk"@) {
        AnyParser::Veikk(veikk::VeikkParser)
    } else if text_contains(name, "Inspiroy"@) || text_contains(name, "Giano"@) {
        AnyParser::Inspiroy(inspiroy::InspiroyParser)
    } else if text_contains(name, "Wacom.Bamboo.BambooReportParser"@) {
        AnyParser::Bamboo(wacom::bamboo::BambooParser)
    } else if text_contains(name, "Wacom.BambooPad.BambooPadReportParser"@) {
        AnyParser::BambooPad(wacom::bamboo_pad::BambooPadParser)
    } else if text_contains(name, "Wacom.BambooV2.BambooV2AuxReportParser"@) {
        AnyParser::BambooV2Aux(wacom::bamboo_v2::BambooV2AuxParser)
    } else if text_contains(name, "Wacom.Graphire.GraphireReportParser"@) {
        AnyParser::Graphire(wacom::graphire::GraphireParser)
    } else if text_contains(name, "Wacom.Intuos.WacomDriverIntuosReportParser"@) {
        AnyParser::WacomDriverIntuos(wacom::intuos::WacomDriverIntuosParser)
    } else if text_contains(name, "Wacom.Intuos.IntuosReportParser"@) {
        AnyParser::Intuos(wacom::intuos::IntuosParser)
    } else if text_contains(name, "Wacom.IntuosV1.IntuosV1ReportParser"@) {
        AnyParser::IntuosV1(wacom::intuos_v1::intuos_v1_initial())
    } else if text_contains(name, "Wacom.IntuosV1.WacomDriverIntuosV1ReportParser"@) {
        AnyParser::WacomDriverIntuosV1(wacom::intuos_v1::WacomDriverIntuosV1Parser { inner: wacom::intuos_v1::intuos_v1_initial() })
    } else if text_contains(name, "Wacom.IntuosV2.IntuosV2ReportParser"@) || text_contains(name, "Wacom.IntuosV2.WacomDriverIntuosV2ReportParser"@) {
        AnyParser::WacomDriverIntuosV2(wacom::intuos_v2::WacomDriverIntuosV2Parser { inner: wacom::intuos_v2::IntuosV2Parser })
    } else if text_contains(name, "Wacom.IntuosV3.IntuosV3ReportParser"@) || text_contains(name, "Wacom.IntuosV3.WacomDriverIntuosV3ReportParser"@) {
        AnyParser::WacomDriverIntuosV3(wacom::intuos_v3::WacomDriverIntuosV3Parser { inner: wacom::intuos_v3::IntuosV3Parser })
    } else if text_contains(name, "Wacom.Intuos4.Intuos4ReportParser"@) || text_contains(name, "Wacom.Intuos4.WacomDriverIntuos4ReportParser"@) {
        AnyParser::WacomDriverIntuos4(wacom::intuos4::WacomDriverIntuos4Parser { inner: wacom::intuos4::Intuos4Parser { inner_v1: wacom::intuos_v1::intuos_v1_initial() } })
    } else if text_contains(name, "Wacom.IntuosPro.IntuosProReportParser"@) || text_contains(name, "Wacom.IntuosPro.WacomDriverIntuosProReportParser"@) {
        AnyParser::WacomDriverIntuosPro(wacom::intuos_pro::WacomDriverIntuosProParser { inner: wacom::intuos_pro::IntuosProParser { inner_v1: wacom::intuos_v1::intuos_v1_initial() } })
    } else if text_contains(name, "Wacom.Intuos3.Intuos3ReportParser"@) || text_contains(name, "Wacom.Intuos3.WacomDriverIntuos3ReportParser"@) {
        AnyParser::WacomDriverIntuos3(wacom::intuos3::WacomDriverIntuos3Parser { inner: wacom::intuos3::Intuos3Parser { inner_v1: wacom::intuos_v1::intuos_v1_initial() } })
    } else if text_contains(name, "Wacom.Intuos3.Intuos3ExtraAuxReportParser"@) {
        AnyParser::Intuos3ExtraAux(wacom::intuos3::Intuos3ExtraAuxParser { inner: wacom::intuos3::Intuos3Parser { inner_v1: wacom::intuos_v1::intuos_v1_initial() } })
    } else if text_contains(name, "Wacom.PL.PLReportParser"@) {
        AnyParser::PL(wacom::pl::pl_initial())
    } else if text_contains(name, "Wacom.PTU.PTUReportParser"@) {
        AnyParser::PTU(wacom::ptu::PTUParser)
    } else if text_contains(name, "Wacom.Wacom64bAuxReportParser"@) {
        AnyParser::Wacom64bAux(wacom::misc::Wacom64bAuxParser)
    } else {
        AnyParser::Fallback(fallback::FallbackParser)
    }
}

/// Chooses the parser for a configured parser name (the OpenTabletDriver
/// class name of the report parser), by the first pattern that occurs in it.
///
/// Two layouts have no parser of their own in this library: names holding
/// `XP_PenReportParser` (the XP-Pen Star G640 layout) are read by the
/// generic XP-Pen parser, and `Wacom.CintiqV1.CintiqV1ReportParser` by the
/// fallback parser.
pub fn create_parser(parser_name: &str) -> (p: AnyParser)
    ensures
        p == parser_for_name(parser_name@),
{
    let name = chars_of(parser_name);
    if contains_str(&name, "Acepen") {
        return AnyParser::Acepen(acepen::AcepenParser::new());
    }
    if contains_str(&name, "Bosto") {
        return AnyParser::Bosto(bosto::BostoParser);
    }
    if contains_str(&name, "FlooGoo") {
        return AnyParser::FlooGoo(floogoo::FlooGooParser);
    }
    if contains_str(&name, "GeniusReportParserV2") {
        return AnyParser::GeniusV2(genius::GeniusParserV2);
    }
    if contains_str(&name, "Genius") {
        return AnyParser::GeniusV1(genius::GeniusParserV1);
    }
    if contains_str(&name, "Lifetec") {
        return AnyParser::Lifetec(lifetec::LifetecParser);
    }
    if contains_str(&name, "RobotPen") {
        return AnyParser::RobotPen(robotpen::RobotPenParser);
    }
    if contains_str(&name, "SkipByteTabletReportParser") {
        return AnyParser::SkipByte(skip_byte::SkipByteParser);
    }
    if contains_str(&name, "10moon") {
        return AnyParser::TenMoon(tenmoon::TenMoonParser);
    }
    if contains_str(&name, "UCLogicV1") {
        return AnyParser::UCLogicV1(uclogic::UCLogicV1Parser);
    }
    if contains_str(&name, "UCLogicV2") {
        return AnyParser::UCLogicV2(uclogic::UCLogicV2Parser);
    }
    if contains_str(&name, "UCLogicTilt") {
        return AnyParser::UCLogicTilt(uclogic::UCLogicTiltParser);
    }
    if contains_str(&name, "UCLogic") {
        return AnyParser::UCLogic(uclogic::UCLogicParser);
    }
    if contains_str(&name, "WoodPad") {
        return AnyParser::ViewSonic(viewsonic::ViewSonicParser);
    }
    if contains_str(&name, "XenceLabs") {
        return AnyParser::XenceLabs(xencelabs::XenceLabsParser);
    }
    if contains_str(&name, "XENX") {
        return AnyParser::Xenx(xenx::XenxParser);
    }
    if contains_str(&name, "XP_PenGen2") {
        return AnyParser::XpPenGen2(xp_pen::extended::XpPenGen2Parser);
    }
    if contains_str(&name, "XP_PenDeco03") {
        return AnyParser::XpPenDeco03(xp_pen::extended::XpPenDeco03Parser);
    }
    if contains_str(&name, "XP_PenOffsetPressure") {
        return AnyParser::XpPenOffsetPressure(xp_pen::extended::XpPenOffsetPressureParser);
    }
    if contains_str(&name, "XP_PenOffsetAux") {
        return AnyParser::XpPenOffsetAux(xp_pen::extended::XpPenOffsetAuxParser);
    }
    if contains_str(&name, "XP_Pen") {
        return AnyParser::XpPen(xp_pen::extended::XpPenParser);
    }
    if contains_str(&name, "VeikkA15") {
        return AnyParser::VeikkA15(veikk::VeikkA15Parser);
    }
    if contains_str(&name, "VeikkTilt") {
        return AnyParser::VeikkTilt(veikk::VeikkTiltParser);
    }
    if contains_str(&name, "VeikkV1") {
        return AnyParser::VeikkV1(veikk::VeikkV1Parser);
    }
    if contains_str(&name, "Veikk") {
        return AnyParser::Veikk(veikk::VeikkParser);
    }
    if contains_str(&name, "Inspiroy") || contains_str(&name, "Giano") {
        return AnyParser::Inspiroy(inspiroy::InspiroyParser);
    }
    if contains_str(&name, "Wacom.Bamboo.BambooReportParser") {
        return AnyParser::Bamboo(wacom::bamboo::BambooParser);
    }
    if contains_str(&name, "Wacom.BambooPad.BambooPadReportParser") {
        return AnyParser::BambooPad(wacom::bamboo_pad::BambooPadParser);
    }
    if contains_str(&name, "Wacom.BambooV2.BambooV2AuxReportParser") {
        return AnyParser::BambooV2Aux(wacom::bamboo_v2::BambooV2AuxParser);
    }
    if contains_str(&name, "Wacom.Graphire.GraphireReportParser") {
        return AnyParser::Graphire(wacom::graphire::GraphireParser);
    }
    if contains_str(&name, "Wacom.Intuos.WacomDriverIntuosReportParser") {
        return AnyParser::WacomDriverIntuos(wacom::intuos::WacomDriverIntuosParser);
    }
    if contains_str(&name, "Wacom.Intuos.IntuosReportParser") {
        return AnyParser::Intuos(wacom::intuos::IntuosParser);
    }
    if contains_str(&name, "Wacom.IntuosV1.IntuosV1ReportParser") {
        return AnyParser::IntuosV1(wacom::intuos_v1::IntuosV1Parser::new());
    }
    if contains_str(&name, "Wacom.IntuosV1.WacomDriverIntuosV1ReportParser") {
        return AnyParser::WacomDriverIntuosV1(wacom::intuos_v1::WacomDriverIntuosV1Parser::new());
    }
    if contains_str(&name, "Wacom.IntuosV2.IntuosV2ReportParser") || contains_str(&name, "Wacom.IntuosV2.WacomDriverIntuosV2ReportParser") {
        return AnyParser::WacomDriverIntuosV2(wacom::intuos_v2::WacomDriverIntuosV2Parser::new());
    }
    if contains_str(&name, "Wacom.IntuosV3.IntuosV3ReportParser") || contains_str(&name, "Wacom.IntuosV3.WacomDriverIntuosV3ReportParser") {
        return AnyParser::WacomDriverIntuosV3(wacom::intuos_v3::WacomDriverIntuosV3Parser::new());
    }
    if contains_str(&name, "Wacom.Intuos4.Intuos4ReportParser") || contains_str(&name, "Wacom.Intuos4.WacomDriverIntuos4ReportParser") {
        return AnyParser::WacomDriverIntuos4(wacom::intuos4::WacomDriverIntuos4Parser::new());
    }
    if contains_str(&name, "Wacom.IntuosPro.IntuosProReportParser") || contains_str(&name, "Wacom.IntuosPro.WacomDriverIntuosProReportParser") {
        return AnyParser::WacomDriverIntuosPro(wacom::intuos_pro::WacomDriverIntuosProParser::new());
    }
    if contains_str(&name, "Wacom.Intuos3.Intuos3ReportParser") || contains_str(&name, "Wacom.Intuos3.WacomDriverIntuos3ReportParser") {
        return AnyParser::WacomDriverIntuos3(wacom::intuos3::WacomDriverIntuos3Parser::new());
    }
    if contains_str(&name, "Wacom.Intuos3.Intuos3ExtraAuxReportParser") {
        return AnyParser::Intuos3ExtraAux(wacom::intuos3::Intuos3ExtraAuxParser::new());
    }
    if contains_str(&name, "Wacom.PL.PLReportParser") {
        return AnyParser::PL(wacom::pl::PLParser::new());
    }
    if contains_str(&name, "Wacom.PTU.PTUReportParser") {
        return AnyParser::PTU(wacom::ptu::PTUParser);
    }
    if contains_str(&name, "Wacom.Wacom64bAuxReportParser") {
        return AnyParser::Wacom64bAux(wacom::misc::Wacom64bAuxParser);
    }
    AnyParser::Fallback(fallback::FallbackParser)
}

impl ReportParser for AnyParser {
    open spec fn step(&self, data: Seq<u8>) -> (Self, Option<TabletDataView>) {
        match self {
            AnyParser::Acepen(p) => (AnyParser::Acepen(p.step(data).0), p.step(data).1),
            AnyParser::Bosto(p) => (AnyParser::Bosto(p.step(data).0), p.step(data).1),
            AnyParser::FlooGoo(p) => (AnyParser::FlooGoo(p.step(data).0), p.step(data).1),
            AnyParser::GeniusV2(p) => (AnyParser::GeniusV2(p.step(data).0), p.step(data).1),
            AnyParser::GeniusV1(p) => (AnyParser::GeniusV1(p.step(data).0), p.step(data).1),
            AnyParser::Lifetec(p) => (AnyParser::Lifetec(p.step(data).0), p.step(data).1),
            AnyParser::RobotPen(p) => (AnyParser::RobotPen(p.step(data).0), p.step(data).1),
            AnyParser::SkipByte(p) => (AnyParser::SkipByte(p.step(data).0), p.step(data).1),
            AnyParser::TenMoon(p) => (AnyParser::TenMoon(p.step(data).0), p.step(data).1),
            AnyParser::UCLogicV1(p) => (AnyParser::UCLogicV1(p.step(data).0), p.step(data).1),
            AnyParser::UCLogicV2(p) => (AnyParser::UCLogicV2(p.step(data).0), p.step(data).1),
            AnyParser::UCLogicTilt(p) => (AnyParser::UCLogicTilt(p.step(data).0), p.step(data).1),
            AnyParser::UCLogic(p) => (AnyParser::UCLogic(p.step(data).0), p.step(data).1),
            AnyParser::ViewSonic(p) => (AnyParser::ViewSonic(p.step(data).0), p.step(data).1),
            AnyParser::XenceLabs(p) => (AnyParser::XenceLabs(p.step(data).0), p.step(data).1),
            AnyParser::Xenx(p) => (AnyParser::Xenx(p.step(data).0), p.step(data).1),
            AnyParser::XpPenGen2(p) => (AnyParser::XpPenGen2(p.step(data).0), p.step(data).1),
            AnyParser::XpPenDeco03(p) => (AnyParser::XpPenDeco03(p.step(data).0), p.step(data).1),
            AnyParser::XpPenOffsetPressure(p) => (AnyParser::XpPenOffsetPressure(p.step(data).0), p.step(data).1),
            AnyParser::XpPenOffsetAux(p) => (AnyParser::XpPenOffsetAux(p.step(data).0), p.step(data).1),
            AnyParser::XpPen(p) => (AnyParser::XpPen(p.step(data).0), p.step(data).1),
            AnyParser::VeikkA15(p) => (AnyParser::VeikkA15(p.step(data).0), p.step(data).1),
            AnyParser::VeikkTilt(p) => (AnyParser::VeikkTilt(p.step(data).0), p.step(data).1),
            AnyParser::VeikkV1(p) => (AnyParser::VeikkV1(p.step(data).0), p.step(data).1),
            AnyParser::Veikk(p) => (AnyParser::Veikk(p.step(data).0), p.step(data).1),
            AnyParser::Inspiroy(p) => (AnyParser::Inspiroy(p.step(data).0), p.step(data).1),
            AnyParser::Bamboo(p) => (AnyParser::Bamboo(p.step(data).0), p.step(data).1),
            AnyParser::BambooPad(p) => (AnyParser::BambooPad(p.step(data).0), p.step(data).1),
            AnyParser::BambooV2Aux(p) => (AnyParser::BambooV2Aux(p.step(data).0), p.step(data).1),
            AnyParser::Graphire(p) => (AnyParser::Graphire(p.step(data).0), p.step(data).1),
            AnyParser::WacomDriverIntuos(p) => (AnyParser::WacomDriverIntuos(p.step(data).0), p.step(data).1),
            AnyParser::Intuos(p) => (AnyParser::Intuos(p.step(data).0), p.step(data).1),
            AnyParser::IntuosV1(p) => (AnyParser::IntuosV1(p.step(data).0), p.step(data).1),
            AnyParser::WacomDriverIntuosV1(p) => (AnyParser::WacomDriverIntuosV1(p.step(data).0), p.step(data).1),
            AnyParser::WacomDriverIntuosV2(p) => (AnyParser::WacomDriverIntuosV2(p.step(data).0), p.step(data).1),
            AnyParser::WacomDriverIntuosV3(p) => (AnyParser::WacomDriverIntuosV3(p.step(data).0), p.step(data).1),
            AnyParser::WacomDriverIntuos4(p) => (AnyParser::WacomDriverIntuos4(p.step(data).0), p.step(data).1),
            AnyParser::WacomDriverIntuosPro(p) => (AnyParser::WacomDriverIntuosPro(p.step(data).0), p.step(data).1),
            AnyParser::WacomDriverIntuos3(p) => (AnyParser::WacomDriverIntuos3(p.step(data).0), p.step(data).1),
            AnyParser::Intuos3ExtraAux(p) => (AnyParser::Intuos3ExtraAux(p.step(data).0), p.step(data).1),
            AnyParser::PL(p) => (AnyParser::PL(p.step(data).0), p.step(data).1),
            AnyParser::PTU(p) => (AnyParser::PTU(p.step(data).0), p.step(data).1),
            AnyParser::Wacom64bAux(p) => (AnyParser::Wacom64bAux(p.step(data).0), p.step(data).1),
            AnyParser::Fallback(p) => (AnyParser::Fallback(p.step(data).0), p.step(data).1),
        }
    }

    fn parse(&mut self, data: &[u8]) -> (r: Option<TabletData>) {
        match self {
            AnyParser::Acepen(p) => p.parse(data),
            AnyParser::Bosto(p) => p.parse(data),
            AnyParser::FlooGoo(p) => p.parse(data),
            AnyParser::GeniusV2(p) => p.parse(data),
            AnyParser::GeniusV1(p) => p.parse(data),
            AnyParser::Lifetec(p) => p.parse(data),
            AnyParser::RobotPen(p) => p.parse(data),
            AnyParser::SkipByte(p) => p.parse(data),
            AnyParser::TenMoon(p) => p.parse(data),
            AnyParser::UCLogicV1(p) => p.parse(data),
            AnyParser::UCLogicV2(p) => p.parse(data),
            AnyParser::UCLogicTilt(p) => p.parse(data),
            AnyParser::UCLogic(p) => p.parse(data),
            AnyParser::ViewSonic(p) => p.parse(data),
            AnyParser::XenceLabs(p) => p.parse(data),
            AnyParser::Xenx(p) => p.parse(data),
            AnyParser::XpPenGen2(p) => p.parse(data),
            AnyParser::XpPenDeco03(p) => p.parse(data),
            AnyParser::XpPenOffsetPressure(p) => p.parse(data),
            AnyParser::XpPenOffsetAux(p) => p.parse(data),
            AnyParser::XpPen(p) => p.parse(data),
            AnyParser::VeikkA15(p) => p.parse(data),
            AnyParser::VeikkTilt(p) => p.parse(data),
            AnyParser::VeikkV1(p) => p.parse(data),
            AnyParser::Veikk(p) => p.parse(data),
            AnyParser::Inspiroy(p) => p.parse(data),
            AnyParser::Bamboo(p) => p.parse(data),
            AnyParser::BambooPad(p) => p.parse(data),
            AnyParser::BambooV2Aux(p) => p.parse(data),
            AnyParser::Graphire(p) => p.parse(data),
            AnyParser::WacomDriverIntuos(p) => p.parse(data),
            AnyParser::Intuos(p) => p.parse(data),
            AnyParser::IntuosV1(p) => p.parse(data),
            AnyParser::WacomDriverIntuosV1(p) => p.parse(data),
            AnyParser::WacomDriverIntuosV2(p) => p.parse(data),
            AnyParser::WacomDriverIntuosV3(p) => p.parse(data),
            AnyParser::WacomDriverIntuos4(p) => p.parse(data),
            AnyParser::WacomDriverIntuosPro(p) => p.parse(data),
            AnyParser::WacomDriverIntuos3(p) => p.parse(data),
            AnyParser::Intuos3ExtraAux(p) => p.parse(data),
            AnyParser::PL(p) => p.parse(data),
            AnyParser::PTU(p) => p.parse(data),
            AnyParser::Wacom64bAux(p) => p.parse(data),
            AnyParser::Fallback(p) => p.parse(data),
        }
    }
}

} // verus!
