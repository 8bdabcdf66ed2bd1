use next_tablet_driver::parsers::acepen::AcepenParser;
use next_tablet_driver::parsers::bosto::BostoParser;
use next_tablet_driver::parsers::create_parser;
use next_tablet_driver::parsers::fallback::FallbackParser;
use next_tablet_driver::parsers::floogoo::FlooGooParser;
use next_tablet_driver::parsers::genius::{GeniusParserV1, GeniusParserV2};
use next_tablet_driver::parsers::inspiroy::InspiroyParser;
use next_tablet_driver::parsers::lifetec::LifetecParser;
use next_tablet_driver::parsers::robotpen::RobotPenParser;
use next_tablet_driver::parsers::skip_byte::SkipByteParser;
use next_tablet_driver::parsers::tenmoon::TenMoonParser;
use next_tablet_driver::parsers::uclogic::UCLogicParser;
use next_tablet_driver::parsers::veikk::{VeikkA15Parser, VeikkParser};
use next_tablet_driver::parsers::viewsonic::ViewSonicParser;
use next_tablet_driver::parsers::wacom::intuos_v1::{IntuosV1Parser, WacomDriverIntuosV1Parser};
use next_tablet_driver::parsers::wacom::intuos_v2::IntuosV2Parser;
use next_tablet_driver::parsers::wacom::intuos_v3::IntuosV3Parser;
use next_tablet_driver::parsers::wacom::pl::PLParser;
use next_tablet_driver::parsers::xencelabs::XenceLabsParser;
use next_tablet_driver::parsers::xenx::XenxParser;
use next_tablet_driver::parsers::xp_pen::extended::XpPenGen2Parser;
use next_tablet_driver::parsers::{AnyParser, ReportParser};

#[test]
fn test_acepen_pen_contact() {
    let mut parser = AcepenParser::new();
    let data: [u8; 11] = [0, 0x41, 0xA2, 0x02, 0x01, 0x04, 0x03, 0x01, 0x00, 10, 20];
    let report = parser.parse(&data).unwrap();
    assert_eq!(report.status, "Contact");
    assert_eq!(report.x, 258);
    assert_eq!(report.y, 772);
    assert_eq!(report.pressure, 1);
    assert_eq!(report.buttons, 1);
    assert_eq!(report.tilt_x, 10);
    assert_eq!(report.tilt_y, 20);
}

#[test]
fn test_acepen_aux() {
    let mut parser = AcepenParser::new();
    let data: [u8; 11] = [0, 0x42, 0, 1, 4, 0, 0, 0, 0, 0, 0];
    let report = parser.parse(&data).unwrap();
    assert_eq!(report.status, "Aux");
    assert_eq!(report.buttons, 4);
}

#[test]
fn test_bosto_pen_contact() {
    let mut parser = BostoParser;
    let data: [u8; 8] = [0, 0x22, 0x02, 0x01, 0x04, 0x03, 0x01, 0x00];
    let report = parser.parse(&data).unwrap();
    assert_eq!(report.status, "Contact");
    assert_eq!(report.x, 258);
    assert_eq!(report.y, 772);
    assert_eq!(report.pressure, 1);
    assert_eq!(report.buttons, 3);
}

#[test]
fn test_bosto_out_of_range() {
    let mut parser = BostoParser;
    let data: [u8; 8] = [0, 0x00, 0x02, 0x01, 0x04, 0x03, 0x01, 0x00];
    assert!(parser.parse(&data).is_none());
}

#[test]
fn test_floogoo_pen_contact() -> Result<(), Box<dyn std::error::Error>> {
    let mut parser = FlooGooParser;
    let data: [u8; 12] = [
        0x01, 0x2A, 0x02, 0x01, 0x04, 0x03, 0x05, 0x00, 0xE8, 0x03, 0x18, 0xFC,
    ];
    let report = parser
        .parse(&data)
        .ok_or("FlooGoo parser failed to parse tablet packet")?;
    assert_eq!(report.status, "Contact");
    assert_eq!(report.x, 258);
    assert_eq!(report.y, 772);
    assert_eq!(report.pressure, 5);
    assert_eq!(report.buttons, 1);
    assert!(report.eraser);
    assert_eq!(report.tilt_x, 10);
    assert_eq!(report.tilt_y, -10);
    Ok(())
}

#[test]
fn test_floogoo_out_of_range() {
    let mut parser = FlooGooParser;
    let data: [u8; 12] = [0x01, 0x00, 0, 0, 0, 0, 0, 0, 0, 0, 0, 0];
    assert!(parser.parse(&data).is_none());
}

#[test]
fn test_genius_v1_tablet() {
    let mut parser = GeniusParserV1;
    let data: [u8; 8] = [0x10, 0x02, 0x01, 0x04, 0x03, 0x0C, 0x01, 0x00];
    let report = parser.parse(&data).unwrap();
    assert_eq!(report.status, "Contact");
    assert_eq!(report.x, 258);
    assert_eq!(report.y, 772);
    assert_eq!(report.pressure, 1);
    assert_eq!(report.buttons, 1);
}

#[test]
fn test_genius_v2_tablet() {
    let mut parser = GeniusParserV2;
    let data: [u8; 8] = [0x02, 0x02, 0x01, 0x04, 0x03, 0x0C, 0x01, 0x00];
    let report = parser.parse(&data).unwrap();
    assert_eq!(report.status, "Contact");
    assert_eq!(report.x, 258);
}

#[test]
fn test_inspiroy_tablet() -> Result<(), Box<dyn std::error::Error>> {
    let mut parser = InspiroyParser;
    let data: [u8; 12] = [0x08, 0x81, 0x02, 0x01, 0, 0x04, 0x03, 0, 0x01, 0x00, 0, 0];
    let report = parser
        .parse(&data)
        .ok_or("Inspiroy parser failed to parse tablet packet")?;
    assert_eq!(report.status, "Contact");
    assert_eq!(report.x, 258);
    assert_eq!(report.pressure, 3);
    Ok(())
}

#[test]
fn test_lifetec_tablet() {
    let mut parser = LifetecParser;
    let data: [u8; 8] = [0x02, 0x02, 0x01, 0x04, 0x03, 0x08, 0x01, 0x00];
    let report = parser.parse(&data).unwrap();
    assert_eq!(report.status, "Contact");
    assert_eq!(report.x, 258);
    assert_eq!(report.y, 772);
    assert_eq!(report.pressure, 1);
    assert_eq!(report.buttons, 1);
}

#[test]
fn test_lifetec_invalid() {
    let mut parser = LifetecParser;
    let data: [u8; 8] = [0x03, 0x02, 0x01, 0x04, 0x03, 0x08, 0x01, 0x00];
    assert!(parser.parse(&data).is_none());
}

#[test]
fn test_robotpen_tablet() {
    let mut parser = RobotPenParser;
    let data: [u8; 12] = [
        0x00, 0x42, 0x00, 0x00, 0x00, 0x00, 0x02, 0x01, 0x04, 0x03, 0x01, 0x02,
    ];
    let report = parser.parse(&data).unwrap();
    assert_eq!(report.status, "Contact");
    assert_eq!(report.x, 258);
    assert_eq!(report.y, 772);
    assert_eq!(report.pressure, 513);
    assert_eq!(report.buttons, 1);
}

#[test]
fn test_skip_byte_tablet() -> Result<(), Box<dyn std::error::Error>> {
    let mut parser = SkipByteParser;
    let data: [u8; 9] = [0x05, 0x02, 0x01, 0x02, 0x01, 0x04, 0x03, 0x01, 0x00];
    let report = parser
        .parse(&data)
        .ok_or("SkipByte parser failed to parse packet")?;
    assert_eq!(report.status, "Contact");
    assert_eq!(report.x, 258);
    assert_eq!(report.pressure, 1);
    Ok(())
}

#[test]
fn test_tenmoon_tablet() {
    let mut parser = TenMoonParser;
    let data: [u8; 13] = [0, 1, 2, 3, 4, 0x05, 0x06, 0, 0, 4, 0, 0xFF, 0];
    let report = parser.parse(&data).unwrap();
    assert_eq!(report.status, "Contact");
    assert_eq!(report.x, 258);
    assert_eq!(report.y, 772);
    assert_eq!(report.pressure, 414);
    assert_eq!(report.buttons, 1);
}

#[test]
fn test_uclogic_tablet() {
    let mut parser = UCLogicParser;
    let data: [u8; 8] = [0, 0x01, 0x02, 0x01, 0x04, 0x03, 0x01, 0x00];
    let report = parser.parse(&data).unwrap();
    assert_eq!(report.status, "Contact");
    assert_eq!(report.x, 258);
    assert_eq!(report.pressure, 1);
    assert_eq!(report.buttons, 1);
}

#[test]
fn test_uclogic_aux() {
    let mut parser = UCLogicParser;
    let data: [u8; 8] = [0, 0x40, 0, 0, 5, 0, 0, 0];
    let report = parser.parse(&data).unwrap();
    assert_eq!(report.status, "Aux");
    assert_eq!(report.buttons, 5);
}

#[test]
fn test_veikk_tablet() {
    let mut parser = VeikkParser;
    let data: [u8; 11] = [0x01, 0x02, 0x22, 0x02, 0x01, 0x00, 0x04, 0x03, 0x00, 0x01, 0x00];
    let report = parser.parse(&data).unwrap();
    assert_eq!(report.status, "Contact");
    assert_eq!(report.x, 258);
    assert_eq!(report.pressure, 1);
}

#[test]
fn test_viewsonic_tablet() {
    let mut parser = ViewSonicParser;
    let data: [u8; 14] = [
        0, 0x02, 0x01, 0, 0, 0x04, 0x03, 0, 0, 0x1F, 0x01, 0x00, 10, 20,
    ];
    let report = parser.parse(&data).unwrap();
    assert_eq!(report.status, "Contact");
    assert_eq!(report.x, 258);
    assert_eq!(report.pressure, 1);
    assert_eq!(report.buttons, 3);
    assert_eq!(report.tilt_x, 10);
}

#[test]
fn test_intuos_v1_tablet_report() {
    let mut parser = IntuosV1Parser::new();
    let data = [0x02, 0x20, 0x12, 0x34, 0x56, 0x78, 0x80, 0x40, 0x40, 0x00];
    let result = parser.parse(&data).expect("Should parse");
    assert_eq!(result.status, "Contact");
}

#[test]
fn test_intuos_v2_tablet_report() {
    let mut parser = IntuosV2Parser::new();
    let mut data = [0u8; 17];
    data[0] = 0x10;
    data[1] = 0x02;
    data[2] = 0x34;
    data[4] = 0x12;
    data[8] = 0xFF;
    data[9] = 0x03;
    let result = parser.parse(&data).expect("Should parse");
    assert_eq!(result.buttons, 1 << 0);
    assert_eq!(result.pressure, 1023);
}

#[test]
fn test_intuos_v3_tablet_report() {
    let mut parser = IntuosV3Parser::new();
    let mut data = [0u8; 15];
    data[0] = 0x1F;
    data[1] = 0x01;
    data[2] = 0x02;
    data[3] = 0x01;
    data[4] = 0x00;
    data[7] = 0xAA;
    data[8] = 0x00;
    let result = parser.parse(&data).expect("Should parse");
    assert_eq!(result.x, 1);
    assert_eq!(result.pressure, 170);
    assert_eq!(result.buttons, 1 << 0);
}

#[test]
fn test_xencelabs_tablet() {
    let mut parser = XenceLabsParser;
    let data: [u8; 10] = [0, 0x2E, 0x02, 0x01, 0x04, 0x03, 0x01, 0x00, 10, 20];
    let report = parser.parse(&data).unwrap();
    assert_eq!(report.status, "Contact");
    assert_eq!(report.x, 258);
    assert_eq!(report.pressure, 1);
    assert_eq!(report.buttons, 7);
    assert_eq!(report.tilt_x, 10);
}

#[test]
fn test_xenx_tablet() {
    let mut parser = XenxParser;
    let data: [u8; 8] = [0x01, 0x06, 0x02, 0x01, 0x04, 0x03, 0x01, 0x00];
    let report = parser.parse(&data).unwrap();
    assert_eq!(report.status, "Contact");
    assert_eq!(report.x, 258);
    assert_eq!(report.pressure, 1);
    assert_eq!(report.buttons, 3);
}

#[test]
fn test_xp_pen_gen2() -> Result<(), Box<dyn std::error::Error>> {
    let mut parser = XpPenGen2Parser;
    let data: [u8; 14] = [
        0, 0xA2, 0x02, 0, 0x04, 0, 0x01, 0x00, 10, 20, 0x01, 0x03, 0, 0,
    ];
    let report = parser
        .parse(&data)
        .ok_or("XP-Pen Gen2 parser failed to parse tablet packet")?;
    assert_eq!(report.status, "Contact");
    assert_eq!(report.x, 0xFFFF);
    assert_eq!(report.buttons, 1);
    Ok(())
}

// ---------------------------------------------------------------------------
// Further cases
// ---------------------------------------------------------------------------

#[test]
fn raw_data_is_upper_case_hex_of_the_whole_packet() {
    let mut parser = BostoParser;
    let data: [u8; 8] = [0, 0x22, 0x02, 0x01, 0x04, 0xAB, 0x01, 0x0F];
    let report = parser.parse(&data).unwrap();
    assert_eq!(report.raw_data, "00 22 02 01 04 AB 01 0F");
    assert!(report.is_connected);
}

#[test]
fn skip_byte_matches_generic_layout_after_first_byte() {
    let packet: [u8; 9] = [0x05, 0x02, 0x01, 0x02, 0x01, 0x04, 0x03, 0x01, 0x00];
    let shifted = SkipByteParser.parse(&packet).unwrap();
    let generic = FallbackParser.parse(&packet[1..]).unwrap();
    assert_eq!(shifted.status, generic.status);
    assert_eq!(shifted.x, generic.x);
    assert_eq!(shifted.y, generic.y);
    assert_eq!(shifted.pressure, generic.pressure);
    assert_eq!(shifted.buttons, generic.buttons);
    assert_eq!(shifted.raw_data, "05 02 01 02 01 04 03 01 00");
    assert_eq!(generic.raw_data, "02 01 02 01 04 03 01 00");
}

#[test]
fn skip_byte_rejects_empty_packet() {
    assert!(SkipByteParser.parse(&[]).is_none());
}

#[test]
fn veikk_a15_matches_generic_veikk() {
    let data: [u8; 11] = [0x01, 0x02, 0x22, 0x02, 0x01, 0x00, 0x04, 0x03, 0x00, 0x01, 0x00];
    let a = VeikkA15Parser.parse(&data).unwrap();
    let b = VeikkParser.parse(&data).unwrap();
    assert_eq!(a.status, b.status);
    assert_eq!(a.x, b.x);
    assert_eq!(a.y, b.y);
    assert_eq!(a.pressure, b.pressure);
    assert_eq!(a.raw_data, b.raw_data);
}

#[test]
fn wacom_driver_intuos_v1_reads_after_first_byte() {
    let pen = [0x02, 0x20, 0x12, 0x34, 0x56, 0x78, 0x80, 0x40, 0x40, 0x00];
    let mut plain = IntuosV1Parser::new();
    let expected = plain.parse(&pen).unwrap();
    let mut wrapped = WacomDriverIntuosV1Parser::new();
    let mut packet = vec![0x99u8];
    packet.extend_from_slice(&pen);
    let got = wrapped.parse(&packet).unwrap();
    assert_eq!(got.status, expected.status);
    assert_eq!(got.x, expected.x);
    assert_eq!(got.y, expected.y);
    assert_eq!(got.pressure, expected.pressure);
    assert_eq!(got.raw_data, "99 02 20 12 34 56 78 80 40 40 00");
}

#[test]
fn intuos_v1_rotation_repeats_last_pen_values() {
    let mut parser = IntuosV1Parser::new();
    let pen = [0x02, 0x26, 0x12, 0x34, 0x56, 0x78, 0x80, 0xC0, 0x50, 0x00];
    let first = parser.parse(&pen).unwrap();
    assert_eq!(first.pressure, 8 * 0x80 + 6);
    assert_eq!(first.buttons, 3);
    let rotation = [0x02, 0x0A, 0x00, 0x10, 0x00, 0x20, 0, 0, 0, 0x00];
    let second = parser.parse(&rotation).unwrap();
    assert_eq!(second.status, "Rotation");
    assert_eq!(second.pressure, first.pressure);
    assert_eq!(second.tilt_x, first.tilt_x);
    assert_eq!(second.tilt_y, first.tilt_y);
    assert_eq!(second.buttons, first.buttons);
    assert_eq!(second.x, 0x10 * 2);
}

#[test]
fn acepen_remembers_aux_keys() {
    let mut parser = AcepenParser::new();
    let press: [u8; 11] = [0, 0x42, 0, 1, 4, 0, 0, 0, 0, 0, 0];
    assert_eq!(parser.parse(&press).unwrap().buttons, 4);
    assert_eq!(parser.aux_state, 4);
}

#[test]
fn pl_parser_starts_without_eraser() {
    let parser = PLParser::new();
    assert!(!parser.initial_eraser);
}

#[test]
fn floogoo_tilt_matches_float_rounding() {
    let mut parser = FlooGooParser;
    for v in i16::MIN..=i16::MAX {
        let [lo, hi] = v.to_le_bytes();
        let data: [u8; 12] = [0x01, 0x20, 0, 0, 0, 0, 0, 0, lo, hi, lo, hi];
        let report = parser.parse(&data).unwrap();
        let expected = (v as f32 * 0.01).round() as i8;
        assert_eq!(report.tilt_x, expected, "tilt {}", v);
        assert_eq!(report.tilt_y, expected, "tilt {}", v);
    }
}

#[test]
fn create_parser_picks_first_matching_name() {
    assert!(matches!(
        create_parser("OpenTabletDriver.Configurations.Parsers.Genius.GeniusReportParserV2"),
        AnyParser::GeniusV2(_)
    ));
    assert!(matches!(
        create_parser("OpenTabletDriver.Configurations.Parsers.Genius.GeniusReportParser"),
        AnyParser::GeniusV1(_)
    ));
    assert!(matches!(create_parser("Something.Unknown"), AnyParser::Fallback(_)));
    assert!(matches!(create_parser(""), AnyParser::Fallback(_)));
}

#[test]
fn malformed_short_packets_give_none() {
    let mut intuos3 = create_parser("OpenTabletDriver.Configurations.Parsers.Wacom.Intuos3.Intuos3ExtraAuxReportParser");
    assert!(intuos3.parse(&[0x02]).is_none());
    let mut intuos = create_parser("OpenTabletDriver.Configurations.Parsers.Wacom.Intuos.IntuosReportParser");
    assert!(intuos.parse(&[0x02]).is_none());
    assert!(intuos.parse(&[0x02, 0x40, 0, 0]).is_none());
    assert!(intuos.parse(&[0x02, 0x00]).is_none());
    let mut wrapped = create_parser("OpenTabletDriver.Configurations.Parsers.Wacom.Intuos4.WacomDriverIntuos4ReportParser");
    assert!(wrapped.parse(&[0x00, 0x02]).is_none());
    let mut aux = create_parser("OpenTabletDriver.Configurations.Parsers.Wacom.Wacom64bAuxReportParser");
    assert!(aux.parse(&[0x00, 0x01]).is_none());
    let report = aux.parse(&[0x00, 0x01, 0x80, 0x05]).unwrap();
    assert_eq!(report.status, "Aux");
    assert_eq!(report.buttons, 5);
    assert!(create_parser("Bosto").parse(&[]).is_none());
}

#[test]
fn intuos_v1_rotation_uses_last_pen_after_other_packets() {
    let mut parser = IntuosV1Parser::new();
    let pen = [0x02, 0x26, 0x12, 0x34, 0x56, 0x78, 0x80, 0xC0, 0x50, 0x00];
    let first = parser.parse(&pen).unwrap();
    let aux = [0x03, 0x00, 0x00, 0x00, 0x07];
    assert_eq!(parser.parse(&aux).unwrap().buttons, 7);
    let rotation = [0x02, 0x0A, 0x00, 0x10, 0x00, 0x20, 0, 0, 0, 0x03];
    let second = parser.parse(&rotation).unwrap();
    assert_eq!(second.status, "Rotation");
    assert_eq!((second.pressure, second.tilt_x, second.tilt_y, second.buttons),
               (first.pressure, first.tilt_x, first.tilt_y, first.buttons));
    assert_eq!(second.x, (0x10 << 1) | 1);
    assert_eq!(second.hover_distance, 3);
}

#[test]
fn intuos_v1_tool_reader_on_rotation() {
    let mut parser = IntuosV1Parser::new();
    let pen = [0x02, 0x26, 0x12, 0x34, 0x56, 0x78, 0x80, 0xC0, 0x50, 0x00];
    let first = parser.parse_tool(&pen, "pen".to_string()).unwrap();
    let rotation = [0x02, 0x0A, 0x00, 0x10, 0x00, 0x20, 0, 0, 0, 0x02];
    let second = parser.parse_tool(&rotation, "rot".to_string()).unwrap();
    assert_eq!(second.status, "Rotation");
    assert_eq!((second.pressure, second.tilt_x, second.tilt_y, second.buttons),
               (first.pressure, first.tilt_x, first.tilt_y, first.buttons));
    assert_eq!(second.x, (0x10 << 1) | 1);
    assert_eq!(second.hover_distance, 2);
    assert_eq!(second.raw_data, "rot");
}
