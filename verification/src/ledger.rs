//! What an operation reads from the ledger and the clock before it computes.

use crate::output::output_views;
use crate::output::Output;
use crate::output::OutputView;
use vstd::prelude::*;

verus! {

/// The readings that one operation works on: the wall-clock time in seconds
/// since the Unix epoch, the address of the contract's spending script, the
/// identifier of its minting policy, and the unspent outputs found at that
/// address, in the order in which the ledger gave them.
#[derive(Debug, PartialEq, Eq)]
pub struct LedgerSnapshot {
    pub current_time: u64,
    pub script_address: String,
    pub policy_id: String,
    pub outputs: Vec<Output>,
}

/// The mathematical value of a `LedgerSnapshot`.
pub struct LedgerView {
    pub current_time: u64,
    pub script_address: Seq<char>,
    pub policy_id: Seq<char>,
    pub outputs: Seq<OutputView>,
}

impl View for LedgerSnapshot {
    type V = LedgerView;

    open spec fn view(&self) -> LedgerView {
        LedgerView {
            current_time: self.current_time,
            script_address: self.script_address@,
            policy_id: self.policy_id@,
            outputs: output_views(self.outputs@),
        }
    }
}

} // verus!
