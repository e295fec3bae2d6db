//! The contract's operations: from a request and the ledger's readings to a
//! transaction intent or an answer.

use crate::datums::genesis_state;
use crate::datums::State;
use crate::datums::StateView;
use crate::error::FortunaError;
use crate::hash::double_sha256;
use crate::hash::genesis_hash;
use crate::intent::mints_exactly;
use crate::intent::spends_exactly;
use crate::intent::ActionView;
use crate::intent::TxActions;
use crate::intent::TxActionsView;
use crate::ledger::LedgerSnapshot;
use crate::ledger::LedgerView;
use crate::mutations::FortunaMutation;
use crate::mutations::MutationView;
use crate::output::locate;
use crate::output::located;
use crate::output::Output;
use crate::output::OutputView;
use crate::queries::puzzle_of;
use crate::queries::FortunaQuery;
use crate::queries::FortunaQueryResponse;
use crate::queries::Puzzle;
use crate::queries::ResponseView;
use crate::redeemers::FortunaRedeemer;
use crate::redeemers::InputNonce;
use crate::redeemers::MintingState;
use crate::redeemers::RedeemerView;
use crate::reward::calculate_amount;
use crate::reward::lemma_reward_non_increasing;
use crate::reward::reward;
use crate::slot::calculate_slot_from_epoch_time;
use crate::slot::checked_slot_from_epoch_time;
use crate::slot::postdates_calibration;
use crate::slot::slot_from_epoch_time;
use crate::token::TokenId;
use crate::token::TokenKey;
use crate::token::Values;
use vstd::prelude::*;

verus! {

/// Asset name of the token that marks the authoritative state output.
pub const MASTER_TOKEN_NAME: &'static str = "lord tuna";

/// Asset name of the token that miners are rewarded with.
pub const TOKEN_NAME: &'static str = "TUNA";

/// Seconds between the bootstrap and the time recorded in the first state.
pub const GENESIS_GRACE_SECS: u64 = 45;

/// Length in seconds of the window in which a transaction is valid.
pub const VALIDITY_WINDOW_SECS: u64 = 90;

/// The master token of the minting policy `policy_id`.
pub open spec fn master_token(policy_id: Seq<char>) -> TokenKey {
    TokenKey::NativeToken(policy_id, Some(MASTER_TOKEN_NAME@))
}

/// The holdings of the state output: exactly one master token.
pub open spec fn state_output_values(policy_id: Seq<char>) -> Map<TokenKey, u64> {
    Map::<TokenKey, u64>::empty().insert(master_token(policy_id), 1u64)
}

/// The window of `VALIDITY_WINDOW_SECS` that opens at `start`.
pub open spec fn validity_window(start: int) -> (Option<i64>, Option<i64>) {
    (Some(start as i64), Some((start + VALIDITY_WINDOW_SECS) as i64))
}

/// Whether a window that opens at `start` can be expressed.
pub open spec fn window_fits(start: int) -> bool {
    0 <= start && start + VALIDITY_WINDOW_SECS <= i64::MAX
}

/// Whether the contract can be bootstrapped at `current_time`: the time has
/// a slot, and the window that opens at that slot can be expressed.
pub open spec fn genesis_admissible(current_time: u64) -> bool {
    &&& postdates_calibration(current_time as int)
    &&& window_fits(slot_from_epoch_time(current_time as int))
}

/// Whether `block_data` can be submitted at `current_slot_time`: the block
/// has a reward, and the window that opens at that time can be expressed.
pub open spec fn mine_admissible(block_data: StateView, current_slot_time: u64) -> bool {
    &&& block_data.block_number >= 1
    &&& window_fits(current_slot_time as int)
}

/// Whether `endpoint` can be handled at `current_time`.
pub open spec fn endpoint_admissible(endpoint: MutationView, current_time: u64) -> bool {
    match endpoint {
        MutationView::Genesis { .. } => genesis_admissible(current_time),
        MutationView::Mine { block_data, current_slot_time, .. } => mine_admissible(
            block_data,
            current_slot_time,
        ),
        MutationView::Answer(_) => true,
    }
}

/// The intent of the bootstrap at `current_time` with the difficulty target
/// `current_hash`: create the state output with one master token and the
/// first state, whose time lies `GENESIS_GRACE_SECS` ahead; mint that master
/// token; be valid for the window that opens at the current slot.
pub open spec fn genesis_intent(
    current_hash: Seq<u8>,
    current_time: u64,
    script_address: Seq<char>,
    policy_id: Seq<char>,
) -> TxActionsView {
    TxActionsView {
        actions: seq![
            ActionView::InitScript {
                datum: genesis_state(current_hash, (current_time + GENESIS_GRACE_SECS) as u64),
                values: state_output_values(policy_id),
                address: script_address,
            },
            ActionView::Mint {
                amount: 1,
                asset_name: Some(MASTER_TOKEN_NAME@),
                redeemer: RedeemerView::Mint(MintingState::Genesis),
                policy_id,
            },
        ],
        valid_range: validity_window(slot_from_epoch_time(current_time as int)),
    }
}

/// The intent of submitting the block `block_data` on top of the state
/// output `input`: create the new state output with the master token, spend
/// `input` with the nonce, mint the block's reward, and be valid for the
/// window that opens at `current_slot_time`.
pub open spec fn mine_intent(
    block_data: StateView,
    nonce: Seq<u8>,
    current_slot_time: u64,
    script_address: Seq<char>,
    policy_id: Seq<char>,
    input: OutputView,
) -> TxActionsView {
    TxActionsView {
        actions: seq![
            ActionView::InitScript {
                datum: block_data,
                values: state_output_values(policy_id),
                address: script_address,
            },
            ActionView::RedeemScriptOutput { output: input, redeemer: RedeemerView::Spend(nonce) },
            ActionView::Mint {
                amount: reward(block_data.block_number as nat) as u64,
                asset_name: Some(TOKEN_NAME@),
                redeemer: RedeemerView::Mint(MintingState::Mine),
                policy_id,
            },
        ],
        valid_range: validity_window(current_slot_time as int),
    }
}

/// What handling `endpoint` on the readings `ledger` results in: the intent
/// of the bootstrap, whose difficulty target is the genesis hash of the
/// output reference; the intent of submitting a block on top of the
/// authoritative output, or the failure to find that output; or, for the
/// reserved operation, that it is not implemented.
pub open spec fn endpoint_outcome(endpoint: MutationView, ledger: LedgerView) -> Result<
    TxActionsView,
    FortunaError,
> {
    match endpoint {
        MutationView::Genesis { output_reference } => Ok(
            genesis_intent(
                double_sha256(output_reference),
                ledger.current_time,
                ledger.script_address,
                ledger.policy_id,
            ),
        ),
        MutationView::Mine { block_data, redeemer, current_slot_time } => match located(
            ledger.outputs,
            master_token(ledger.policy_id),
        ) {
            Ok(at) => Ok(
                mine_intent(
                    block_data,
                    redeemer,
                    current_slot_time,
                    ledger.script_address,
                    ledger.policy_id,
                    ledger.outputs[at],
                ),
            ),
            Err(error) => Err(error),
        },
        MutationView::Answer(_) => Err(FortunaError::NotImplemented),
    }
}

/// What looking up `query` on the readings `ledger` results in.
pub open spec fn lookup_outcome(query: FortunaQuery, ledger: LedgerView) -> Result<
    ResponseView,
    FortunaError,
> {
    match query {
        FortunaQuery::CurrentBlock => Err(FortunaError::NotImplemented),
        FortunaQuery::LatestPuzzle => match located(
            ledger.outputs,
            master_token(ledger.policy_id),
        ) {
            Ok(at) => Ok(ResponseView::Puzzle(puzzle_of(ledger.outputs[at].datum->0))),
            Err(error) => Err(error),
        },
    }
}

/// Whether the intent or failure `got` is the one that `expected` describes.
pub open spec fn intent_agrees(
    got: Result<TxActions, FortunaError>,
    expected: Result<TxActionsView, FortunaError>,
) -> bool {
    match expected {
        Ok(intent) => got matches Ok(actions) && actions@ == intent,
        Err(error) => got matches Err(reported) && reported == error,
    }
}

/// Whether the answer or failure `got` is the one that `expected` describes.
pub open spec fn response_agrees(
    got: Result<FortunaQueryResponse, FortunaError>,
    expected: Result<ResponseView, FortunaError>,
) -> bool {
    match expected {
        Ok(response) => got matches Ok(answer) && answer@ == response,
        Err(error) => got matches Err(reported) && reported == error,
    }
}

/// The bootstrap always succeeds; its intent is valid from the slot of the
/// current time until `VALIDITY_WINDOW_SECS` later, and mints one master
/// token and nothing else.
pub proof fn lemma_genesis_window_and_mint(output_reference: Seq<u8>, ledger: LedgerView)
    requires
        genesis_admissible(ledger.current_time),
    ensures
        ({
            let outcome = endpoint_outcome(MutationView::Genesis { output_reference }, ledger);
            &&& outcome matches Ok(intent)
            &&& intent.valid_range.0 matches Some(lower)
            &&& intent.valid_range.1 matches Some(upper)
            &&& lower == slot_from_epoch_time(ledger.current_time as int)
            &&& upper == lower + VALIDITY_WINDOW_SECS
            &&& mints_exactly(intent, Some(MASTER_TOKEN_NAME@), 1)
        }),
{
    let intent = genesis_intent(
        double_sha256(output_reference),
        ledger.current_time,
        ledger.script_address,
        ledger.policy_id,
    );
    assert(intent.actions[0] is InitScript);
    assert(intent.actions[1] is Mint);
}

/// Submitting a block mints exactly the reward of the proposed block number
/// and spends exactly the authoritative output; without an authoritative
/// output it fails as the search for it fails.
pub proof fn lemma_mine_mints_reward_and_spends_located(
    block_data: StateView,
    nonce: Seq<u8>,
    current_slot_time: u64,
    ledger: LedgerView,
)
    requires
        mine_admissible(block_data, current_slot_time),
    ensures
        ({
            let outcome = endpoint_outcome(
                MutationView::Mine { block_data, redeemer: nonce, current_slot_time },
                ledger,
            );
            match located(ledger.outputs, master_token(ledger.policy_id)) {
                Ok(at) => {
                    &&& outcome matches Ok(intent)
                    &&& mints_exactly(
                        intent,
                        Some(TOKEN_NAME@),
                        reward(block_data.block_number as nat) as u64,
                    )
                    &&& spends_exactly(intent, ledger.outputs[at])
                    &&& reward(block_data.block_number as nat) <= u64::MAX
                },
                Err(error) => outcome == Err::<TxActionsView, FortunaError>(error),
            }
        }),
{
    lemma_reward_non_increasing(1, block_data.block_number as nat);
    match located(ledger.outputs, master_token(ledger.policy_id)) {
        Ok(at) => {
            let intent = mine_intent(
                block_data,
                nonce,
                current_slot_time,
                ledger.script_address,
                ledger.policy_id,
                ledger.outputs[at],
            );
            assert(intent.actions[0] is InitScript);
            assert(intent.actions[1] is RedeemScriptOutput);
            assert(intent.actions[2] is Mint);
        },
        Err(_) => {},
    }
}

/// The reserved operations are admitted on every input and always fail as
/// not implemented.
pub proof fn lemma_reserved_not_implemented(payload: Seq<u8>, ledger: LedgerView)
    ensures
        endpoint_admissible(MutationView::Answer(payload), ledger.current_time),
        endpoint_outcome(MutationView::Answer(payload), ledger) == Err::<
            TxActionsView,
            FortunaError,
        >(FortunaError::NotImplemented),
        lookup_outcome(FortunaQuery::CurrentBlock, ledger) == Err::<ResponseView, FortunaError>(
            FortunaError::NotImplemented,
        ),
{
}

/// The master token of the minting policy `policy_id`.
pub fn master_token_id(policy_id: &str) -> (token: TokenId)
    ensures
        token@ == master_token(policy_id@),
{
    TokenId::NativeToken(policy_id.to_owned(), Some(MASTER_TOKEN_NAME.to_owned()))
}

/// The holdings that every state output is created with.
fn new_state_output_values(policy_id: &str) -> (values: Values)
    ensures
        values@ == state_output_values(policy_id@),
{
    let mut values = Values::new();
    values.add_one_value(&master_token_id(policy_id), 1);
    values
}

/// The window of `VALIDITY_WINDOW_SECS` that opens at `start`.
fn window_from(start: u64) -> (window: (Option<i64>, Option<i64>))
    requires
        window_fits(start as int),
    ensures
        window == validity_window(start as int),
{
    (Some(start as i64), Some((start + VALIDITY_WINDOW_SECS) as i64))
}

/// The contract.
#[derive(Debug, PartialEq, Eq)]
pub struct Fortuna;

impl Fortuna {
    /// Tells whether `endpoint` can be handled at `current_time`.
    pub fn admits(endpoint: &FortunaMutation, current_time: u64) -> (admitted: bool)
        ensures
            admitted == endpoint_admissible(endpoint@, current_time),
    {
        let latest_start: u64 = 0x7fff_ffff_ffff_ffff - VALIDITY_WINDOW_SECS;
        assert(latest_start + VALIDITY_WINDOW_SECS == i64::MAX);
        match endpoint {
            FortunaMutation::Genesis { .. } => match checked_slot_from_epoch_time(current_time) {
                Some(slot) => slot <= latest_start,
                None => false,
            },
            FortunaMutation::Mine { block_data, current_slot_time, .. } => block_data.block_number
                >= 1 && *current_slot_time <= latest_start,
            FortunaMutation::Answer(_) => true,
        }
    }

    /// Builds the intent of the bootstrap from the difficulty target
    /// `current_hash`.
    pub fn genesis_actions(
        current_hash: Vec<u8>,
        current_time: u64,
        script_address: String,
        policy_id: &str,
    ) -> (intent: TxActions)
        requires
            genesis_admissible(current_time),
        ensures
            intent@ == genesis_intent(current_hash@, current_time, script_address@, policy_id@),
    {
        let current_time_on_chain: u64 = current_time + GENESIS_GRACE_SECS;
        let current_slot_time: u64 = calculate_slot_from_epoch_time(current_time);
        let datum = State::genesis(current_hash, current_time_on_chain);
        let values = new_state_output_values(policy_id);
        let intent = TxActions::new().with_script_init(datum, values, script_address).with_mint(
            1,
            Some(MASTER_TOKEN_NAME.to_owned()),
            FortunaRedeemer::Mint(MintingState::Genesis),
            policy_id.to_owned(),
        ).with_valid_range_secs(window_from(current_slot_time).0, window_from(current_slot_time).1);
        assert(intent@.actions =~= genesis_intent(
            current_hash@,
            current_time,
            script_address@,
            policy_id@,
        ).actions);
        intent
    }

    /// Builds the intent of submitting `block_data` on top of the state
    /// output `input`.
    pub fn mine_actions(
        block_data: State,
        redeemer: InputNonce,
        current_slot_time: u64,
        script_address: String,
        policy_id: &str,
        input: Output,
    ) -> (intent: TxActions)
        requires
            mine_admissible(block_data@, current_slot_time),
        ensures
            intent@ == mine_intent(
                block_data@,
                redeemer@,
                current_slot_time,
                script_address@,
                policy_id@,
                input@,
            ),
    {
        let values = new_state_output_values(policy_id);
        let amount: u64 = calculate_amount(block_data.block_number);
        let window = window_from(current_slot_time);
        let intent = TxActions::new().with_script_init(
            block_data,
            values,
            script_address,
        ).with_script_redeem(input, FortunaRedeemer::Spend(redeemer)).with_mint(
            amount,
            Some(TOKEN_NAME.to_owned()),
            FortunaRedeemer::Mint(MintingState::Mine),
            policy_id.to_owned(),
        ).with_valid_range_secs(window.0, window.1);
        assert(intent@.actions =~= mine_intent(
            block_data@,
            redeemer@,
            current_slot_time,
            script_address@,
            policy_id@,
            input@,
        ).actions);
        intent
    }

    /// Turns a request to change the contract's state into the intent of the
    /// transaction that carries it out.
    pub fn handle_endpoint(endpoint: FortunaMutation, ledger: LedgerSnapshot) -> (outcome: Result<
        TxActions,
        FortunaError,
    >)
        requires
            endpoint_admissible(endpoint@, ledger.current_time),
        ensures
            intent_agrees(outcome, endpoint_outcome(endpoint@, ledger@)),
    {
        let LedgerSnapshot { current_time, script_address, policy_id, outputs } = ledger;
        match endpoint {
            FortunaMutation::Genesis { output_reference } => {
                let current_hash = genesis_hash(output_reference.as_slice());
                Ok(
                    Self::genesis_actions(
                        current_hash,
                        current_time,
                        script_address,
                        policy_id.as_str(),
                    ),
                )
            },
            FortunaMutation::Mine { block_data, redeemer, current_slot_time } => {
                let master = master_token_id(policy_id.as_str());
                match locate(outputs, &master) {
                    Ok((input, _)) => Ok(
                        Self::mine_actions(
                            block_data,
                            redeemer,
                            current_slot_time,
                            script_address,
                            policy_id.as_str(),
                            input,
                        ),
                    ),
                    Err(error) => Err(error),
                }
            },
            FortunaMutation::Answer(_) => Err(FortunaError::NotImplemented),
        }
    }

    /// Answers a question about the contract's current state.
    pub fn lookup(query: FortunaQuery, ledger: LedgerSnapshot) -> (outcome: Result<
        FortunaQueryResponse,
        FortunaError,
    >)
        ensures
            response_agrees(outcome, lookup_outcome(query, ledger@)),
    {
        match query {
            FortunaQuery::CurrentBlock => Err(FortunaError::NotImplemented),
            FortunaQuery::LatestPuzzle => {
                let master = master_token_id(ledger.policy_id.as_str());
                match locate(ledger.outputs, &master) {
                    Ok((_, state)) => {
                        let fields = state.fields();
                        let puzzle = Puzzle { current_difficulty_hash: state.current_hash, fields };
                        Ok(FortunaQueryResponse::Puzzle(puzzle))
                    },
                    Err(error) => Err(error),
                }
            },
        }
    }
}

/// Computes the intent of `mutation` on the readings `ledger`.
pub fn mutate(mutation: FortunaMutation, ledger: LedgerSnapshot) -> (outcome: Result<
    TxActions,
    FortunaError,
>)
    requires
        endpoint_admissible(mutation@, ledger.current_time),
    ensures
        intent_agrees(outcome, endpoint_outcome(mutation@, ledger@)),
{
    Fortuna::handle_endpoint(mutation, ledger)
}

/// Computes the intent of bootstrapping the contract.
pub fn genesis(output_reference: Vec<u8>, ledger: LedgerSnapshot) -> (outcome: Result<
    TxActions,
    FortunaError,
>)
    requires
        genesis_admissible(ledger.current_time),
    ensures
        outcome matches Ok(intent) && intent@ == genesis_intent(
            double_sha256(output_reference@),
            ledger.current_time,
            ledger.script_address@,
            ledger.policy_id@,
        ),
{
    mutate(FortunaMutation::Genesis { output_reference }, ledger)
}

/// Computes the intent of submitting a mined block.
pub fn mine(
    block_data: State,
    redeemer: InputNonce,
    current_slot_time: u64,
    ledger: LedgerSnapshot,
) -> (outcome: Result<TxActions, FortunaError>)
    requires
        mine_admissible(block_data@, current_slot_time),
    ensures
        intent_agrees(
            outcome,
            endpoint_outcome(
                MutationView::Mine { block_data: block_data@, redeemer: redeemer@, current_slot_time },
                ledger@,
            ),
        ),
{
    mutate(FortunaMutation::Mine { block_data, redeemer, current_slot_time }, ledger)
}

} // verus!
