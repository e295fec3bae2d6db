use fortuna::contract::master_token_id;
use fortuna::datums::State;
use fortuna::error::FortunaError;
use fortuna::output::count_holders;
use fortuna::output::find_holder;
use fortuna::output::locate;
use fortuna::output::Output;
use fortuna::token::TokenId;
use fortuna::token::Values;

fn state(block_number: u64) -> State {
    State {
        block_number,
        current_hash: vec![block_number as u8; 32],
        leading_zeros: 5,
        difficulty_number: 65535,
        epoch_time: 7,
        current_posix_time: 1_700_000_000,
        extra: 0,
        interlink: vec![vec![1, 2], vec![3]],
    }
}

fn ada_only(index: u64) -> Output {
    let mut values = Values::new();
    values.add_one_value(&TokenId::Ada, 2_000_000);
    Output::new_validator("aa".to_string(), index, "addr".to_string(), values, state(90 + index))
}

fn with_master(index: u64, datum: Option<State>) -> Output {
    let mut values = Values::new();
    values.add_one_value(&TokenId::Ada, 2_000_000);
    values.add_one_value(&master_token_id("policy"), 1);
    match datum {
        Some(datum) => {
            Output::new_validator("bb".to_string(), index, "addr".to_string(), values, datum)
        }
        None => Output::new_wallet("bb".to_string(), index, "addr".to_string(), values),
    }
}

#[test]
fn locate_returns_the_single_holder_and_its_state() {
    let outputs = vec![ada_only(0), with_master(1, Some(state(4))), ada_only(2)];
    let (output, found) = locate(outputs, &master_token_id("policy")).unwrap();
    assert_eq!(output, with_master(1, Some(state(4))));
    assert_eq!(found, state(4));
}

#[test]
fn locate_without_holder_reports_missing_master_token() {
    let outputs = vec![ada_only(0), ada_only(1)];
    assert_eq!(
        locate(outputs, &master_token_id("policy")),
        Err(FortunaError::MasterTokenNotFound)
    );
    assert_eq!(
        locate(Vec::new(), &master_token_id("policy")),
        Err(FortunaError::MasterTokenNotFound)
    );
}

#[test]
fn locate_ignores_master_token_of_another_policy() {
    let outputs = vec![with_master(0, Some(state(4)))];
    assert_eq!(
        locate(outputs, &master_token_id("other")),
        Err(FortunaError::MasterTokenNotFound)
    );
}

#[test]
fn locate_holder_without_datum_reports_missing_datum() {
    let outputs = vec![ada_only(0), with_master(1, None)];
    assert_eq!(
        locate(outputs, &master_token_id("policy")),
        Err(FortunaError::DatumNotFound)
    );
}

#[test]
fn locate_takes_the_first_of_several_holders() {
    let outputs = vec![
        ada_only(0),
        with_master(1, Some(state(4))),
        with_master(2, Some(state(5))),
    ];
    let (output, found) = locate(outputs, &master_token_id("policy")).unwrap();
    assert_eq!(output.id.index, 1);
    assert_eq!(found.block_number, 4);

    let outputs = vec![with_master(1, None), with_master(2, Some(state(5)))];
    assert_eq!(
        locate(outputs, &master_token_id("policy")),
        Err(FortunaError::DatumNotFound)
    );
}

#[test]
fn find_holder_gives_the_first_position() {
    let outputs = vec![
        ada_only(0),
        ada_only(1),
        with_master(2, None),
        with_master(3, Some(state(1))),
    ];
    assert_eq!(find_holder(&outputs, &master_token_id("policy")), Some(2));
    assert_eq!(find_holder(&outputs, &TokenId::Ada), Some(0));
    assert_eq!(find_holder(&outputs, &master_token_id("nobody")), None);
    assert!(outputs[2].holds_token(&master_token_id("policy")));
    assert!(!outputs[1].holds_token(&master_token_id("policy")));
}

#[test]
fn error_messages_name_the_failure() {
    assert_eq!(FortunaError::DatumNotFound.message(), "No datum found");
    assert_eq!(
        FortunaError::MasterTokenNotFound.message(),
        "Output containing NFT not found"
    );
    assert_eq!(
        FortunaError::NotImplemented.message(),
        "Operation not implemented"
    );
}

#[test]
fn count_holders_tells_when_the_master_token_is_not_single() {
    let none = vec![ada_only(0), ada_only(1)];
    let one = vec![ada_only(0), with_master(1, Some(state(4)))];
    let two = vec![with_master(0, None), ada_only(1), with_master(2, Some(state(5)))];
    assert_eq!(count_holders(&none, &master_token_id("policy")), 0);
    assert_eq!(count_holders(&one, &master_token_id("policy")), 1);
    assert_eq!(count_holders(&two, &master_token_id("policy")), 2);
    assert_eq!(count_holders(&two, &TokenId::Ada), 3);
    assert_eq!(count_holders(&Vec::new(), &TokenId::Ada), 0);
}
