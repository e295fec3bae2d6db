//! Transaction intents: the ordered effects that a transaction is to have,
//! and the window of time in which it is valid.

use crate::datums::State;
use crate::datums::StateView;
use crate::output::Output;
use crate::output::OutputView;
use crate::redeemers::FortunaRedeemer;
use crate::redeemers::RedeemerView;
use crate::token::name_view;
use crate::token::TokenKey;
use crate::token::Values;
use vstd::prelude::*;

verus! {

/// One effect of a transaction.
#[derive(Debug, PartialEq, Eq)]
pub enum Action {
    /// Mint `amount` tokens named `asset_name` under the policy `policy_id`.
    Mint { amount: u64, asset_name: Option<String>, redeemer: FortunaRedeemer, policy_id: String },
    /// Create an output at the script address `address` that holds `values`
    /// and carries `datum`.
    InitScript { datum: State, values: Values, address: String },
    /// Spend the script output `output`.
    RedeemScriptOutput { output: Output, redeemer: FortunaRedeemer },
}

/// The mathematical value of an `Action`.
pub enum ActionView {
    Mint {
        amount: u64,
        asset_name: Option<Seq<char>>,
        redeemer: RedeemerView,
        policy_id: Seq<char>,
    },
    InitScript { datum: StateView, values: Map<TokenKey, u64>, address: Seq<char> },
    RedeemScriptOutput { output: OutputView, redeemer: RedeemerView },
}

impl View for Action {
    type V = ActionView;

    open spec fn view(&self) -> ActionView {
        match self {
            Action::Mint { amount, asset_name, redeemer, policy_id } => ActionView::Mint {
                amount: *amount,
                asset_name: name_view(*asset_name),
                redeemer: redeemer@,
                policy_id: policy_id@,
            },
            Action::InitScript { datum, values, address } => ActionView::InitScript {
                datum: datum@,
                values: values@,
                address: address@,
            },
            Action::RedeemScriptOutput { output, redeemer } => ActionView::RedeemScriptOutput {
                output: output@,
                redeemer: redeemer@,
            },
        }
    }
}

/// The values of the actions in `actions`, in order.
pub open spec fn action_views(actions: Seq<Action>) -> Seq<ActionView> {
    Seq::new(actions.len(), |i: int| actions[i]@)
}

/// A transaction intent: effects in the order in which they were asked for,
/// and the bounds, in ledger time, between which the transaction is valid.
#[derive(Debug, PartialEq, Eq)]
pub struct TxActions {
    pub actions: Vec<Action>,
    pub valid_range: (Option<i64>, Option<i64>),
}

/// The mathematical value of a `TxActions`.
pub struct TxActionsView {
    pub actions: Seq<ActionView>,
    pub valid_range: (Option<i64>, Option<i64>),
}

impl View for TxActions {
    type V = TxActionsView;

    open spec fn view(&self) -> TxActionsView {
        TxActionsView { actions: action_views(self.actions@), valid_range: self.valid_range }
    }
}

/// Whether `intent` mints `amount` tokens named `asset_name` and mints
/// nothing else.
pub open spec fn mints_exactly(
    intent: TxActionsView,
    asset_name: Option<Seq<char>>,
    amount: u64,
) -> bool {
    exists|at: int|
        {
            &&& 0 <= at < intent.actions.len()
            &&& #[trigger] intent.actions[at] matches ActionView::Mint {
                amount: minted,
                asset_name: name,
                ..
            }
            &&& minted == amount
            &&& name == asset_name
            &&& forall|j: int|
                0 <= j < intent.actions.len() && #[trigger] intent.actions[j] is Mint ==> j == at
        }
}

/// Whether `intent` spends `output` and spends nothing else.
pub open spec fn spends_exactly(intent: TxActionsView, output: OutputView) -> bool {
    exists|at: int|
        {
            &&& 0 <= at < intent.actions.len()
            &&& #[trigger] intent.actions[at] matches ActionView::RedeemScriptOutput {
                output: spent,
                ..
            }
            &&& spent == output
            &&& forall|j: int|
                0 <= j < intent.actions.len() && #[trigger] intent.actions[j]
                    is RedeemScriptOutput ==> j == at
        }
}

impl TxActions {
    /// An intent without effects that is valid at any time.
    pub fn new() -> (intent: TxActions)
        ensures
            intent@ == (TxActionsView { actions: Seq::empty(), valid_range: (None, None) }),
    {
        let intent = TxActions { actions: Vec::new(), valid_range: (None, None) };
        assert(intent@.actions =~= Seq::empty());
        intent
    }

    /// Appends `action` to the effects.
    fn with_action(self, action: Action) -> (intent: TxActions)
        ensures
            intent@ == (TxActionsView { actions: self@.actions.push(action@), ..self@ }),
    {
        let mut intent = self;
        intent.actions.push(action);
        assert(intent@.actions =~= self@.actions.push(action@));
        intent
    }

    /// Adds the minting of `amount` tokens named `asset_name` under the
    /// policy `policy_id`.
    pub fn with_mint(
        self,
        amount: u64,
        asset_name: Option<String>,
        redeemer: FortunaRedeemer,
        policy_id: String,
    ) -> (intent: TxActions)
        ensures
            intent@ == (TxActionsView {
                actions: self@.actions.push(
                    ActionView::Mint {
                        amount,
                        asset_name: name_view(asset_name),
                        redeemer: redeemer@,
                        policy_id: policy_id@,
                    },
                ),
                ..self@
            }),
    {
        self.with_action(Action::Mint { amount, asset_name, redeemer, policy_id })
    }

    /// Adds the creation of a script output.
    pub fn with_script_init(self, datum: State, values: Values, address: String) -> (intent:
        TxActions)
        ensures
            intent@ == (TxActionsView {
                actions: self@.actions.push(
                    ActionView::InitScript { datum: datum@, values: values@, address: address@ },
                ),
                ..self@
            }),
    {
        self.with_action(Action::InitScript { datum, values, address })
    }

    /// Adds the spending of a script output.
    pub fn with_script_redeem(self, output: Output, redeemer: FortunaRedeemer) -> (intent:
        TxActions)
        ensures
            intent@ == (TxActionsView {
                actions: self@.actions.push(
                    ActionView::RedeemScriptOutput { output: output@, redeemer: redeemer@ },
                ),
                ..self@
            }),
    {
        self.with_action(Action::RedeemScriptOutput { output, redeemer })
    }

    /// Sets the bounds between which the transaction is valid.
    pub fn with_valid_range_secs(self, lower: Option<i64>, upper: Option<i64>) -> (intent:
        TxActions)
        ensures
            intent@ == (TxActionsView { valid_range: (lower, upper), ..self@ }),
    {
        let mut intent = self;
        intent.valid_range = (lower, upper);
        intent
    }
}

} // verus!
