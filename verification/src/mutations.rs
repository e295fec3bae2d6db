//! The operations that change the contract's on-chain state.

use crate::datums::State;
use crate::datums::StateView;
use crate::redeemers::InputNonce;
use vstd::prelude::*;

verus! {

/// A request to change the contract's state.
#[derive(Debug, PartialEq, Eq)]
pub enum FortunaMutation {
    /// Bootstrap the contract, consuming the output that `output_reference`
    /// names.
    Genesis { output_reference: Vec<u8> },
    /// Submit a mined block: `block_data` replaces the current state, and
    /// `redeemer` carries the nonce that is claimed to solve the puzzle.
    Mine { block_data: State, redeemer: InputNonce, current_slot_time: u64 },
    /// Reserved.
    Answer(Vec<u8>),
}

/// The mathematical value of a `FortunaMutation`.
pub enum MutationView {
    Genesis { output_reference: Seq<u8> },
    Mine { block_data: StateView, redeemer: Seq<u8>, current_slot_time: u64 },
    Answer(Seq<u8>),
}

impl View for FortunaMutation {
    type V = MutationView;

    open spec fn view(&self) -> MutationView {
        match self {
            FortunaMutation::Genesis { output_reference } => MutationView::Genesis {
                output_reference: output_reference@,
            },
            FortunaMutation::Mine {
                block_data,
                redeemer,
                current_slot_time,
            } => MutationView::Mine {
                block_data: block_data@,
                redeemer: redeemer@,
                current_slot_time: *current_slot_time,
            },
            FortunaMutation::Answer(payload) => MutationView::Answer(payload@),
        }
    }
}

} // verus!
