//! The read-only questions that the contract answers.

use crate::datums::field_views;
use crate::datums::state_fields;
use crate::datums::Field;
use crate::datums::FieldView;
use crate::datums::StateView;
use vstd::prelude::*;

verus! {

/// A question about the contract's current state.
#[derive(Debug, Clone, Copy, PartialEq, Eq, Structural)]
pub enum FortunaQuery {
    /// Reserved.
    CurrentBlock,
    /// Which puzzle is to be solved next?
    LatestPuzzle,
}

/// What a miner needs to attempt the next block: the difficulty target and
/// the raw fields of the state it belongs to.
#[derive(Debug, PartialEq, Eq)]
pub struct Puzzle {
    pub current_difficulty_hash: Vec<u8>,
    pub fields: Vec<Field>,
}

/// The mathematical value of a `Puzzle`.
pub struct PuzzleView {
    pub current_difficulty_hash: Seq<u8>,
    pub fields: Seq<FieldView>,
}

impl View for Puzzle {
    type V = PuzzleView;

    open spec fn view(&self) -> PuzzleView {
        PuzzleView {
            current_difficulty_hash: self.current_difficulty_hash@,
            fields: field_views(self.fields@),
        }
    }
}

/// The puzzle that `state` poses.
pub open spec fn puzzle_of(state: StateView) -> PuzzleView {
    PuzzleView { current_difficulty_hash: state.current_hash, fields: state_fields(state) }
}

/// The answer to a `FortunaQuery`.
#[derive(Debug, PartialEq, Eq)]
pub enum FortunaQueryResponse {
    Puzzle(Puzzle),
}

/// The mathematical value of a `FortunaQueryResponse`.
pub enum ResponseView {
    Puzzle(PuzzleView),
}

impl View for FortunaQueryResponse {
    type V = ResponseView;

    open spec fn view(&self) -> ResponseView {
        match self {
            FortunaQueryResponse::Puzzle(puzzle) => ResponseView::Puzzle(puzzle@),
        }
    }
}

} // verus!
