//! Unspent outputs, and the search for the one that carries the contract's
//! authoritative state.

use crate::datums::state_option_view;
use crate::datums::State;
use crate::datums::StateView;
use crate::error::FortunaError;
use crate::token::TokenId;
use crate::token::TokenKey;
use crate::token::Values;
use vstd::prelude::*;

verus! {

/// Where an output was created: a transaction and a position in it.
#[derive(Debug, PartialEq, Eq)]
pub struct OutputId {
    pub tx_hash: String,
    pub index: u64,
}

/// The mathematical value of an `OutputId`.
pub struct OutputIdView {
    pub tx_hash: Seq<char>,
    pub index: u64,
}

impl View for OutputId {
    type V = OutputIdView;

    open spec fn view(&self) -> OutputIdView {
        OutputIdView { tx_hash: self.tx_hash@, index: self.index }
    }
}

/// An unspent output: the tokens it holds, the address that owns it, and the
/// contract state decoded from its datum, where it has a datum that decodes.
#[derive(Debug, PartialEq, Eq)]
pub struct Output {
    pub id: OutputId,
    pub owner: String,
    pub values: Values,
    pub datum: Option<State>,
}

/// The mathematical value of an `Output`.
pub struct OutputView {
    pub id: OutputIdView,
    pub owner: Seq<char>,
    pub values: Map<TokenKey, u64>,
    pub datum: Option<StateView>,
}

impl View for Output {
    type V = OutputView;

    open spec fn view(&self) -> OutputView {
        OutputView {
            id: self.id@,
            owner: self.owner@,
            values: self.values@,
            datum: state_option_view(self.datum),
        }
    }
}

/// The values of the outputs in `outputs`, in order.
pub open spec fn output_views(outputs: Seq<Output>) -> Seq<OutputView> {
    Seq::new(outputs.len(), |i: int| outputs[i]@)
}

/// Whether `output` holds any amount of `token`.
pub open spec fn holds(output: OutputView, token: TokenKey) -> bool {
    output.values.contains_key(token)
}

/// Whether the output at `at` is the first in `outputs` that holds `token`.
pub open spec fn is_first_holder(outputs: Seq<OutputView>, token: TokenKey, at: int) -> bool {
    &&& 0 <= at < outputs.len()
    &&& holds(outputs[at], token)
    &&& forall|j: int| 0 <= j < at ==> !holds(#[trigger] outputs[j], token)
}

/// The position of the first output in `outputs` that holds `token`, if any
/// output does.
pub open spec fn first_holder(outputs: Seq<OutputView>, token: TokenKey) -> Option<int> {
    if exists|at: int| is_first_holder(outputs, token, at) {
        Some(choose|at: int| is_first_holder(outputs, token, at))
    } else {
        None
    }
}

/// The position of the authoritative output among `outputs`: the first that
/// holds `master_token`, provided that it carries a state. Without a holder
/// the master token is not found; with a holder that lacks a state the datum
/// is not found.
pub open spec fn located(outputs: Seq<OutputView>, master_token: TokenKey) -> Result<
    int,
    FortunaError,
> {
    match first_holder(outputs, master_token) {
        None => Err(FortunaError::MasterTokenNotFound),
        Some(at) => match outputs[at].datum {
            None => Err(FortunaError::DatumNotFound),
            Some(_) => Ok(at),
        },
    }
}

/// How many of `outputs` hold `token`. The contract keeps this at one for
/// the master token; more than one holder breaks that invariant.
pub open spec fn holder_count(outputs: Seq<OutputView>, token: TokenKey) -> nat
    decreases outputs.len(),
{
    if outputs.len() == 0 {
        0
    } else if holds(outputs.last(), token) {
        holder_count(outputs.drop_last(), token) + 1
    } else {
        holder_count(outputs.drop_last(), token)
    }
}

/// There is at most one first holder, and `first_holder` names it.
pub proof fn lemma_first_holder_unique(outputs: Seq<OutputView>, token: TokenKey, at: int)
    requires
        is_first_holder(outputs, token, at),
    ensures
        first_holder(outputs, token) == Some(at),
{
    let chosen = choose|k: int| is_first_holder(outputs, token, k);
    assert(is_first_holder(outputs, token, chosen));
    if chosen < at {
        assert(!holds(outputs[chosen], token));
    }
    if at < chosen {
        assert(!holds(outputs[at], token));
    }
}

/// Where no output holds the token there is no first holder.
pub proof fn lemma_first_holder_none(outputs: Seq<OutputView>, token: TokenKey)
    requires
        forall|j: int| 0 <= j < outputs.len() ==> !holds(#[trigger] outputs[j], token),
    ensures
        first_holder(outputs, token) is None,
{
    assert forall|at: int| !is_first_holder(outputs, token, at) by {
        if 0 <= at < outputs.len() {
            assert(!holds(outputs[at], token));
        }
    }
}

/// Where exactly one output holds the master token, that output is the
/// authoritative one if it carries a state, and the datum is not found if it
/// carries none.
pub proof fn lemma_located_single_holder(
    outputs: Seq<OutputView>,
    master_token: TokenKey,
    at: int,
)
    requires
        0 <= at < outputs.len(),
        holds(outputs[at], master_token),
        forall|j: int| 0 <= j < outputs.len() && j != at ==> !holds(#[trigger] outputs[j], master_token),
    ensures
        located(outputs, master_token) == match outputs[at].datum {
            Some(_) => Ok::<int, FortunaError>(at),
            None => Err(FortunaError::DatumNotFound),
        },
{
    lemma_first_holder_unique(outputs, master_token, at);
}

/// Where no output holds the master token, the master token is not found.
pub proof fn lemma_located_no_holder(outputs: Seq<OutputView>, master_token: TokenKey)
    requires
        forall|j: int| 0 <= j < outputs.len() ==> !holds(#[trigger] outputs[j], master_token),
    ensures
        located(outputs, master_token) == Err::<int, FortunaError>(
            FortunaError::MasterTokenNotFound,
        ),
{
    lemma_first_holder_none(outputs, master_token);
}

impl OutputId {
    /// The output at position `index` of the transaction `tx_hash`.
    pub fn new(tx_hash: String, index: u64) -> (id: OutputId)
        ensures
            id@ == (OutputIdView { tx_hash: tx_hash@, index }),
    {
        OutputId { tx_hash, index }
    }
}

impl Output {
    /// An output at a wallet address: it carries no state.
    pub fn new_wallet(tx_hash: String, index: u64, owner: String, values: Values) -> (output:
        Output)
        ensures
            output@ == (OutputView {
                id: OutputIdView { tx_hash: tx_hash@, index },
                owner: owner@,
                values: values@,
                datum: None,
            }),
    {
        Output { id: OutputId::new(tx_hash, index), owner, values, datum: None }
    }

    /// An output at a script address that carries `datum`.
    pub fn new_validator(
        tx_hash: String,
        index: u64,
        owner: String,
        values: Values,
        datum: State,
    ) -> (output: Output)
        ensures
            output@ == (OutputView {
                id: OutputIdView { tx_hash: tx_hash@, index },
                owner: owner@,
                values: values@,
                datum: Some(datum@),
            }),
    {
        Output { id: OutputId::new(tx_hash, index), owner, values, datum: Some(datum) }
    }

    /// Tells whether the output holds any amount of `token`.
    pub fn holds_token(&self, token: &TokenId) -> (held: bool)
        ensures
            held == holds(self@, token@),
    {
        self.values.get(token).is_some()
    }
}

/// Finds the first output that holds `token`.
pub fn find_holder(outputs: &Vec<Output>, token: &TokenId) -> (found: Option<usize>)
    ensures
        match found {
            Some(at) => first_holder(output_views(outputs@), token@) == Some(at as int),
            None => first_holder(output_views(outputs@), token@) is None,
        },
{
    let ghost views = output_views(outputs@);
    let mut at: usize = 0;
    while at < outputs.len()
        invariant
            at <= outputs@.len(),
            views == output_views(outputs@),
            forall|j: int| 0 <= j < at ==> !holds(#[trigger] views[j], token@),
        decreases outputs@.len() - at,
    {
        if outputs[at].holds_token(token) {
            proof {
                lemma_first_holder_unique(views, token@, at as int);
            }
            return Some(at);
        }
        at = at + 1;
    }
    proof {
        lemma_first_holder_none(views, token@);
    }
    None
}

/// Counts the outputs that hold `token`, so that a caller can tell when the
/// master token has more holders than the one that the contract allows.
pub fn count_holders(outputs: &Vec<Output>, token: &TokenId) -> (count: usize)
    ensures
        count == holder_count(output_views(outputs@), token@),
{
    let ghost views = output_views(outputs@);
    let mut count: usize = 0;
    let mut at: usize = 0;
    while at < outputs.len()
        invariant
            at <= outputs@.len(),
            views == output_views(outputs@),
            count == holder_count(views.take(at as int), token@),
            count <= at,
        decreases outputs@.len() - at,
    {
        proof {
            let next = views.take(at + 1);
            assert(next.drop_last() =~= views.take(at as int));
            assert(next.last() == views[at as int]);
        }
        if outputs[at].holds_token(token) {
            count = count + 1;
        }
        at = at + 1;
    }
    assert(views.take(at as int) =~= views);
    count
}

/// Picks the authoritative output out of `outputs` and returns it with a
/// copy of the state it carries.
pub fn locate(outputs: Vec<Output>, master_token: &TokenId) -> (found: Result<
    (Output, State),
    FortunaError,
>)
    ensures
        match located(output_views(outputs@), master_token@) {
            Ok(at) => found matches Ok((output, state)) && output@ == outputs@[at]@ && Some(
                state@,
            ) == outputs@[at]@.datum,
            Err(error) => found matches Err(reported) && reported == error,
        },
{
    let mut outputs = outputs;
    match find_holder(&outputs, master_token) {
        None => Err(FortunaError::MasterTokenNotFound),
        Some(at) => {
            let output = outputs.swap_remove(at);
            let datum = match &output.datum {
                Some(state) => Some(state.clone()),
                None => None,
            };
            match datum {
                Some(state) => Ok((output, state)),
                None => Err(FortunaError::DatumNotFound),
            }
        },
    }
}

} // verus!
