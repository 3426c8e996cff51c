use strafe::category::Category;
use strafe::filter::filter;
use strafe::participant::{parse_failure_line, DecodeError, ParticipantData};
use strafe::render::render_plain;
use strafe::CommandRecord;

#[test]
fn the_parse_failure_line_is_the_fixed_literal() {
    assert_eq!(parse_failure_line(), "{\"error\":\"Parsing failed!\"}");
}

#[test]
fn decode_errors_compare_by_value() {
    assert_eq!(DecodeError::ParseFailed, DecodeError::ParseFailed);
}

#[test]
fn a_participant_flows_through_filter_and_render() {
    let participant = ParticipantData {
        name: "Commander".to_owned(),
        records: vec![
            CommandRecord { tick: 1, action_code: 62, payload: vec![0x00, 0x01] },
            CommandRecord { tick: 2, action_code: 0xFE, payload: vec![] },
            CommandRecord { tick: 3, action_code: 67, payload: vec![0xAA] },
        ],
    };
    let kept = filter(&participant.records, &vec![Category::Move, Category::Attack]);
    assert_eq!(kept.len(), 2);
    let lines: Vec<String> = kept.iter().map(|r| render_plain(r).unwrap()).collect();
    assert!(lines[0].starts_with("Move"));
    assert!(lines[1].starts_with("Attack"));
    assert!(lines[0].ends_with("    1: 00 01 "));
    assert!(lines[1].ends_with("    3: AA "));
}
