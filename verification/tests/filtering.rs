use strafe::category::Category;
use strafe::filter::filter;
use strafe::CommandRecord;

fn record(tick: u32, action_code: u8, payload: Vec<u8>) -> CommandRecord {
    CommandRecord { tick, action_code, payload }
}

fn sample() -> Vec<CommandRecord> {
    vec![
        record(1, 62, vec![0x00, 0x01]),
        record(2, 0xFE, vec![]),
        record(3, 67, vec![0xAA]),
        record(4, 62, vec![0x10, 0x20, 0x30]),
        record(5, 5, vec![0x07]),
    ]
}

fn same_record(a: &CommandRecord, b: &CommandRecord) -> bool {
    a.tick == b.tick && a.action_code == b.action_code && a.payload == b.payload
}

#[test]
fn empty_selection_is_the_identity() {
    let records = sample();
    let out = filter(&records, &Vec::new());
    assert_eq!(out.len(), records.len());
    for (a, b) in out.iter().zip(records.iter()) {
        assert!(same_record(a, b));
    }
}

#[test]
fn empty_selection_keeps_even_unknown_codes() {
    let records = vec![record(9, 0xFE, vec![1, 2, 3])];
    let out = filter(&records, &Vec::new());
    assert_eq!(out.len(), 1);
    assert_eq!(out[0].action_code, 0xFE);
}

#[test]
fn selection_keeps_exactly_the_matching_records_in_order() {
    let records = sample();
    let out = filter(&records, &vec![Category::Move]);
    assert_eq!(out.len(), 2);
    assert_eq!(out[0].tick, 1);
    assert_eq!(out[1].tick, 4);
    assert_eq!(out[0].payload, vec![0x00, 0x01]);
    assert_eq!(out[1].payload, vec![0x10, 0x20, 0x30]);
}

#[test]
fn selection_of_several_categories_preserves_relative_order() {
    let records = sample();
    let out = filter(&records, &vec![Category::CancelProduction, Category::Attack]);
    assert_eq!(out.len(), 2);
    assert_eq!(out[0].tick, 3);
    assert_eq!(out[1].tick, 5);
}

#[test]
fn survivor_count_matches_the_count_of_selected_classifications() {
    let records = sample();
    let selected = vec![Category::Move, Category::Attack];
    let out = filter(&records, &selected);
    let expected = records
        .iter()
        .filter(|r| {
            selected.contains(&strafe::category::classify(r.action_code))
        })
        .count();
    assert_eq!(out.len(), expected);
    assert_eq!(out.len(), 3);
}

#[test]
fn unmatched_selection_drops_everything() {
    let records = sample();
    let out = filter(&records, &vec![Category::Retreat]);
    assert!(out.is_empty());
}

#[test]
fn selecting_the_fallback_matches_its_carried_code() {
    let records = sample();
    let out = filter(&records, &vec![Category::Unknown(0xFE)]);
    assert_eq!(out.len(), 1);
    assert_eq!(out[0].tick, 2);
}

#[test]
fn filtering_does_not_mutate_its_input() {
    let records = sample();
    let _ = filter(&records, &vec![Category::Move]);
    assert_eq!(records.len(), 5);
    assert_eq!(records[1].action_code, 0xFE);
}
