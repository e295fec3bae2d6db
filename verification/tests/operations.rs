use fortuna::contract::genesis;
use fortuna::contract::master_token_id;
use fortuna::contract::mine;
use fortuna::contract::mutate;
use fortuna::contract::Fortuna;
use fortuna::contract::GENESIS_GRACE_SECS;
use fortuna::contract::MASTER_TOKEN_NAME;
use fortuna::contract::TOKEN_NAME;
use fortuna::contract::VALIDITY_WINDOW_SECS;
use fortuna::datums::Field;
use fortuna::datums::State;
use fortuna::error::FortunaError;
use fortuna::hash::genesis_hash;
use fortuna::intent::Action;
use fortuna::intent::TxActions;
use fortuna::ledger::LedgerSnapshot;
use fortuna::mutations::FortunaMutation;
use fortuna::output::Output;
use fortuna::queries::FortunaQuery;
use fortuna::queries::FortunaQueryResponse;
use fortuna::queries::Puzzle;
use fortuna::redeemers::FortunaRedeemer;
use fortuna::redeemers::InputNonce;
use fortuna::redeemers::MintingState;
use fortuna::reward::calculate_amount;
use fortuna::slot::calculate_slot_from_epoch_time;
use fortuna::token::TokenId;
use fortuna::token::Values;

const NOW: u64 = 1_700_000_000;

fn block(block_number: u64) -> State {
    State {
        block_number,
        current_hash: vec![0, 0, 0, 0, 0, 9, 8, 7],
        leading_zeros: 5,
        difficulty_number: 65535,
        epoch_time: 600,
        current_posix_time: 1_700_000_600,
        extra: 0,
        interlink: vec![vec![0xaa, 0xbb], vec![], vec![0xcc]],
    }
}

fn state_output(datum: Option<State>) -> Output {
    let mut values = Values::new();
    values.add_one_value(&TokenId::Ada, 1_500_000);
    values.add_one_value(&master_token_id("policy"), 1);
    match datum {
        Some(datum) => {
            Output::new_validator("cafe".to_string(), 3, "script".to_string(), values, datum)
        }
        None => Output::new_wallet("cafe".to_string(), 3, "script".to_string(), values),
    }
}

fn other_output(index: u64) -> Output {
    let mut values = Values::new();
    values.add_one_value(
        &TokenId::native_token("policy", &Some("TUNA".to_string())),
        40,
    );
    Output::new_validator("beef".to_string(), index, "script".to_string(), values, block(77))
}

fn ledger(outputs: Vec<Output>) -> LedgerSnapshot {
    LedgerSnapshot {
        current_time: NOW,
        script_address: "script".to_string(),
        policy_id: "policy".to_string(),
        outputs,
    }
}

fn state_values() -> Values {
    let mut values = Values::new();
    values.add_one_value(&master_token_id("policy"), 1);
    values
}

#[test]
fn protocol_constants() {
    assert_eq!(MASTER_TOKEN_NAME, "lord tuna");
    assert_eq!(TOKEN_NAME, "TUNA");
    assert_eq!(GENESIS_GRACE_SECS, 45);
    assert_eq!(VALIDITY_WINDOW_SECS, 90);
}

#[test]
fn genesis_window_opens_at_current_slot_and_lasts_ninety_seconds() {
    let intent = genesis(vec![1, 2, 3], ledger(Vec::new())).unwrap();
    let slot = calculate_slot_from_epoch_time(NOW) as i64;
    assert_eq!(slot, 33_329_600);
    assert_eq!(intent.valid_range, (Some(slot), Some(slot + 90)));
}

#[test]
fn genesis_mints_exactly_one_master_token() {
    let intent = genesis(vec![1, 2, 3], ledger(Vec::new())).unwrap();
    let minted: Vec<&Action> = intent
        .actions
        .iter()
        .filter(|action| matches!(action, Action::Mint { .. }))
        .collect();
    assert_eq!(minted.len(), 1);
    assert_eq!(
        *minted[0],
        Action::Mint {
            amount: 1,
            asset_name: Some("lord tuna".to_string()),
            redeemer: FortunaRedeemer::Mint(MintingState::Genesis),
            policy_id: "policy".to_string(),
        }
    );
}

#[test]
fn genesis_produces_the_whole_intent() {
    let reference = vec![0x58, 0x20, 7, 7, 7];
    let intent = genesis(reference.clone(), ledger(vec![other_output(0)])).unwrap();
    let expected = TxActions {
        actions: vec![
            Action::InitScript {
                datum: State {
                    block_number: 0,
                    current_hash: genesis_hash(&reference),
                    leading_zeros: 5,
                    difficulty_number: 65535,
                    epoch_time: 0,
                    current_posix_time: NOW + 45,
                    extra: 0,
                    interlink: Vec::new(),
                },
                values: state_values(),
                address: "script".to_string(),
            },
            Action::Mint {
                amount: 1,
                asset_name: Some("lord tuna".to_string()),
                redeemer: FortunaRedeemer::Mint(MintingState::Genesis),
                policy_id: "policy".to_string(),
            },
        ],
        valid_range: (Some(33_329_600), Some(33_329_690)),
    };
    assert_eq!(intent, expected);
}

#[test]
fn genesis_actions_take_the_hash_as_given() {
    let intent = Fortuna::genesis_actions(vec![9; 32], NOW, "script".to_string(), "policy");
    assert_eq!(intent.actions.len(), 2);
    assert_eq!(
        intent.actions[0],
        Action::InitScript {
            datum: State::genesis(vec![9; 32], NOW + 45),
            values: state_values(),
            address: "script".to_string(),
        }
    );
}

#[test]
fn genesis_at_the_latest_admissible_time() {
    let latest: u64 = 9_223_372_038_521_446_117;
    let genesis_request = FortunaMutation::Genesis {
        output_reference: vec![1],
    };
    assert!(Fortuna::admits(&genesis_request, latest));
    assert!(!Fortuna::admits(&genesis_request, latest + 1));
    assert!(!Fortuna::admits(&genesis_request, 1_691_996_127));
    assert!(Fortuna::admits(&genesis_request, 1_691_996_128));
    let mut readings = ledger(Vec::new());
    readings.current_time = latest;
    let intent = genesis(vec![1], readings).unwrap();
    assert_eq!(
        intent.valid_range,
        (Some(i64::MAX - 90), Some(i64::MAX))
    );
}

#[test]
fn mine_mints_the_reward_of_the_proposed_block() {
    let readings = ledger(vec![other_output(0), state_output(Some(block(4)))]);
    let nonce = InputNonce {
        nonce: vec![1, 2, 3, 4],
    };
    let intent = mine(block(210_001), nonce, 5_000, readings).unwrap();
    let expected = TxActions {
        actions: vec![
            Action::InitScript {
                datum: block(210_001),
                values: state_values(),
                address: "script".to_string(),
            },
            Action::RedeemScriptOutput {
                output: state_output(Some(block(4))),
                redeemer: FortunaRedeemer::Spend(InputNonce {
                    nonce: vec![1, 2, 3, 4],
                }),
            },
            Action::Mint {
                amount: 2_500_000_000,
                asset_name: Some("TUNA".to_string()),
                redeemer: FortunaRedeemer::Mint(MintingState::Mine),
                policy_id: "policy".to_string(),
            },
        ],
        valid_range: (Some(5_000), Some(5_090)),
    };
    assert_eq!(intent, expected);
}

#[test]
fn mine_consumes_exactly_the_located_output() {
    for number in [1u64, 5, 420_001, 7_000_000] {
        let readings = ledger(vec![
            other_output(0),
            state_output(Some(block(number - 1))),
            other_output(2),
        ]);
        let intent = mine(block(number), InputNonce { nonce: vec![] }, 0, readings).unwrap();
        let spent: Vec<&Action> = intent
            .actions
            .iter()
            .filter(|action| matches!(action, Action::RedeemScriptOutput { .. }))
            .collect();
        assert_eq!(spent.len(), 1);
        assert!(matches!(
            spent[0],
            Action::RedeemScriptOutput { output, .. } if *output == state_output(Some(block(number - 1)))
        ));
        assert!(matches!(
            intent.actions[2],
            Action::Mint { amount, .. } if amount == calculate_amount(number)
        ));
    }
}

#[test]
fn mine_without_state_output_fails() {
    let request = FortunaMutation::Mine {
        block_data: block(2),
        redeemer: InputNonce { nonce: vec![5] },
        current_slot_time: 10,
    };
    assert!(Fortuna::admits(&request, 0));
    assert_eq!(
        mutate(request, ledger(vec![other_output(0)])),
        Err(FortunaError::MasterTokenNotFound)
    );
    assert_eq!(
        mine(
            block(2),
            InputNonce { nonce: vec![5] },
            10,
            ledger(vec![state_output(None)])
        ),
        Err(FortunaError::DatumNotFound)
    );
}

#[test]
fn mine_is_not_admitted_for_block_zero_or_an_overlong_window() {
    let request = |block_number: u64, current_slot_time: u64| FortunaMutation::Mine {
        block_data: block(block_number),
        redeemer: InputNonce { nonce: vec![] },
        current_slot_time,
    };
    assert!(!Fortuna::admits(&request(0, 10), NOW));
    assert!(Fortuna::admits(&request(1, 10), NOW));
    assert!(Fortuna::admits(&request(1, 9_223_372_036_854_775_717), NOW));
    assert!(!Fortuna::admits(&request(1, 9_223_372_036_854_775_718), NOW));
}

#[test]
fn answer_is_not_implemented() {
    let request = FortunaMutation::Answer(vec![1, 2, 3]);
    assert!(Fortuna::admits(&request, 0));
    assert_eq!(
        Fortuna::handle_endpoint(request, ledger(vec![state_output(Some(block(1)))])),
        Err(FortunaError::NotImplemented)
    );
    assert_eq!(
        mutate(FortunaMutation::Answer(Vec::new()), ledger(Vec::new())),
        Err(FortunaError::NotImplemented)
    );
}

#[test]
fn current_block_is_not_implemented() {
    assert_eq!(
        Fortuna::lookup(
            FortunaQuery::CurrentBlock,
            ledger(vec![state_output(Some(block(1)))])
        ),
        Err(FortunaError::NotImplemented)
    );
    assert_eq!(
        Fortuna::lookup(FortunaQuery::CurrentBlock, ledger(Vec::new())),
        Err(FortunaError::NotImplemented)
    );
}

#[test]
fn latest_puzzle_projects_the_located_state() {
    let readings = ledger(vec![other_output(0), state_output(Some(block(12)))]);
    let answer = Fortuna::lookup(FortunaQuery::LatestPuzzle, readings).unwrap();
    let expected = Puzzle {
        current_difficulty_hash: vec![0, 0, 0, 0, 0, 9, 8, 7],
        fields: vec![
            Field::Int(12),
            Field::Bytes(vec![0, 0, 0, 0, 0, 9, 8, 7]),
            Field::Int(5),
            Field::Int(65535),
            Field::Int(600),
            Field::Int(1_700_000_600),
            Field::Int(0),
            Field::List(vec![vec![0xaa, 0xbb], vec![], vec![0xcc]]),
        ],
    };
    assert_eq!(answer, FortunaQueryResponse::Puzzle(expected));
}

#[test]
fn latest_puzzle_fails_without_authoritative_state() {
    assert_eq!(
        Fortuna::lookup(FortunaQuery::LatestPuzzle, ledger(vec![other_output(0)])),
        Err(FortunaError::MasterTokenNotFound)
    );
    assert_eq!(
        Fortuna::lookup(FortunaQuery::LatestPuzzle, ledger(vec![state_output(None)])),
        Err(FortunaError::DatumNotFound)
    );
}

#[test]
fn state_clone_and_fields_agree() {
    let state = block(3);
    assert_eq!(state.clone(), state);
    assert_eq!(state.fields().len(), 8);
    assert_eq!(State::genesis(vec![1], 2).fields()[7], Field::List(Vec::new()));
}

#[test]
fn state_decodes_from_its_fields() {
    let state = block(8);
    assert_eq!(State::from_fields(state.fields()), Some(block(8)));
    assert_eq!(
        State::from_fields(State::genesis(vec![4; 32], 99).fields()),
        Some(State::genesis(vec![4; 32], 99))
    );
}

#[test]
fn state_does_not_decode_from_another_layout() {
    let mut short = block(8).fields();
    short.pop();
    assert_eq!(State::from_fields(short), None);
    let mut long = block(8).fields();
    long.push(Field::Int(1));
    assert_eq!(State::from_fields(long), None);
    let mut swapped = block(8).fields();
    swapped.swap(0, 1);
    assert_eq!(State::from_fields(swapped), None);
    let mut wrong_kind = block(8).fields();
    wrong_kind[7] = Field::Bytes(vec![1]);
    assert_eq!(State::from_fields(wrong_kind), None);
    assert_eq!(State::from_fields(Vec::new()), None);
}
