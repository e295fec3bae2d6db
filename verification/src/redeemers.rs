//! What a transaction hands to the contract's scripts when it spends the
//! state output or mints tokens.

use vstd::prelude::*;

verus! {

/// The phase in which tokens are minted.
#[derive(Debug, Clone, Copy, PartialEq, Eq, Structural)]
pub enum MintingState {
    Mine,
    Genesis,
}

/// The nonce that a miner claims solves the current puzzle.
#[derive(Debug, PartialEq, Eq)]
pub struct InputNonce {
    pub nonce: Vec<u8>,
}

impl View for InputNonce {
    type V = Seq<u8>;

    open spec fn view(&self) -> Seq<u8> {
        self.nonce@
    }
}

/// The redeemer of one script action.
#[derive(Debug, PartialEq, Eq)]
pub enum FortunaRedeemer {
    Spend(InputNonce),
    Mint(MintingState),
}

/// The mathematical value of a `FortunaRedeemer`.
pub enum RedeemerView {
    Spend(Seq<u8>),
    Mint(MintingState),
}

impl View for FortunaRedeemer {
    type V = RedeemerView;

    open spec fn view(&self) -> RedeemerView {
        match self {
            FortunaRedeemer::Spend(nonce) => RedeemerView::Spend(nonce@),
            FortunaRedeemer::Mint(phase) => RedeemerView::Mint(*phase),
        }
    }
}

} // verus!
