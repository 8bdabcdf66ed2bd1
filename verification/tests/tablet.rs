use next_tablet_driver::parsers::AnyParser;
use next_tablet_driver::tablet::{
    after_attempt, DetectAction,
    decode_init_report, detection_candidates, is_new_config_name, next_init_action,
    parser_for_identifiers, parser_name_of, DigitizerIdentifier, InitAction, InitError,
    ReportKind,
};

fn ident(vid: u16, pid: u16, parser: &str) -> DigitizerIdentifier {
    DigitizerIdentifier {
        vendor_id: vid,
        product_id: pid,
        input_report_length: None,
        output_report_length: None,
        report_parser: parser.to_string(),
        output_init_report: None,
        feature_init_report: None,
    }
}

#[test]
fn parser_comes_from_first_identifier() {
    let ids = vec![
        ident(1, 2, "OpenTabletDriver.Configurations.Parsers.Wacom.Intuos.IntuosReportParser"),
        ident(1, 3, "OpenTabletDriver.Configurations.Parsers.Bosto.BostoReportParser"),
    ];
    assert_eq!(
        parser_name_of(&ids),
        "OpenTabletDriver.Configurations.Parsers.Wacom.Intuos.IntuosReportParser"
    );
    assert!(matches!(parser_for_identifiers(&ids), AnyParser::Intuos(_)));
    assert_eq!(parser_name_of(&vec![]), "");
    assert!(matches!(parser_for_identifiers(&vec![]), AnyParser::Fallback(_)));
}

#[test]
fn candidates_follow_configuration_order() {
    let configs = vec![
        vec![ident(10, 1, "a"), ident(20, 2, "b")],
        vec![ident(10, 1, "c")],
        vec![],
    ];
    let devices = vec![(20, 2), (10, 1), (10, 1), (30, 3)];
    let c = detection_candidates(&configs, &devices);
    assert_eq!(c, vec![(0, 0, 1), (0, 0, 2), (0, 1, 0), (1, 0, 1), (1, 0, 2)]);
    assert!(detection_candidates(&configs, &vec![]).is_empty());
}

#[test]
fn base64_reports_decode() {
    assert_eq!(decode_init_report("AgI=", ReportKind::Feature).unwrap(), vec![2, 2]);
    assert_eq!(decode_init_report("ArAE", ReportKind::Output).unwrap(), vec![0x02, 0xB0, 0x04]);
    assert_eq!(
        decode_init_report("not base64!", ReportKind::Output),
        Err(InitError::Base64(ReportKind::Output))
    );
}

#[test]
fn init_sends_feature_then_output_reports() {
    let mut id = ident(1, 2, "x");
    id.feature_init_report = Some(vec!["AgI=".to_string()]);
    id.output_init_report = Some(vec!["ArAE".to_string(), "AQ==".to_string()]);
    match next_init_action(&id, 0) {
        InitAction::Send(ReportKind::Feature, d) => assert_eq!(d, vec![2, 2]),
        _ => panic!("expected the feature report"),
    }
    match next_init_action(&id, 1) {
        InitAction::Send(ReportKind::Output, d) => assert_eq!(d, vec![0x02, 0xB0, 0x04]),
        _ => panic!("expected the first output report"),
    }
    match next_init_action(&id, 2) {
        InitAction::Send(ReportKind::Output, d) => assert_eq!(d, vec![1]),
        _ => panic!("expected the second output report"),
    }
    assert!(matches!(next_init_action(&id, 3), InitAction::Finished));
}

#[test]
fn init_stops_at_undecodable_report() {
    let mut id = ident(1, 2, "x");
    id.feature_init_report = Some(vec!["@@".to_string()]);
    assert!(matches!(
        next_init_action(&id, 0),
        InitAction::Failed(InitError::Base64(ReportKind::Feature))
    ));
    assert!(matches!(next_init_action(&ident(1, 2, "x"), 0), InitAction::Finished));
}

#[test]
fn config_names_are_new_once() {
    let seen = vec!["Wacom CTL-472".to_string()];
    assert!(!is_new_config_name(&seen, &"Wacom CTL-472".to_string()));
    assert!(is_new_config_name(&seen, &"Wacom CTL-672".to_string()));
    assert!(is_new_config_name(&vec![], &"Any".to_string()));
}

#[test]
fn detection_keeps_first_working_candidate() {
    assert_eq!(after_attempt(0, 3, true), DetectAction::Accept(0));
    assert_eq!(after_attempt(0, 3, false), DetectAction::Try(1));
    assert_eq!(after_attempt(2, 3, false), DetectAction::GiveUp);
    assert_eq!(after_attempt(2, 3, true), DetectAction::Accept(2));
}
