//! The contract's on-chain state and its projection into raw fields.

use vstd::prelude::*;

verus! {

/// Leading zeros demanded of the first block's hash.
pub const GENESIS_LEADING_ZEROS: u64 = 5;

/// Difficulty number of the first block.
pub const GENESIS_DIFFICULTY_NUMBER: u64 = 65535;

/// The datum that the authoritative output carries: the active difficulty
/// target together with the metadata of the latest block.
#[derive(Debug, PartialEq, Eq)]
pub struct State {
    pub block_number: u64,
    pub current_hash: Vec<u8>,
    pub leading_zeros: u64,
    pub difficulty_number: u64,
    pub epoch_time: u64,
    pub current_posix_time: u64,
    pub extra: u64,
    pub interlink: Vec<Vec<u8>>,
}

/// The mathematical value of a `State`.
pub struct StateView {
    pub block_number: u64,
    pub current_hash: Seq<u8>,
    pub leading_zeros: u64,
    pub difficulty_number: u64,
    pub epoch_time: u64,
    pub current_posix_time: u64,
    pub extra: u64,
    pub interlink: Seq<Seq<u8>>,
}

impl View for State {
    type V = StateView;

    open spec fn view(&self) -> StateView {
        StateView {
            block_number: self.block_number,
            current_hash: self.current_hash@,
            leading_zeros: self.leading_zeros,
            difficulty_number: self.difficulty_number,
            epoch_time: self.epoch_time,
            current_posix_time: self.current_posix_time,
            extra: self.extra,
            interlink: self.interlink.deep_view(),
        }
    }
}

/// One raw field of a decoded datum.
#[derive(Debug, PartialEq, Eq)]
pub enum Field {
    Int(u64),
    Bytes(Vec<u8>),
    List(Vec<Vec<u8>>),
}

/// The mathematical value of a `Field`.
pub enum FieldView {
    Int(u64),
    Bytes(Seq<u8>),
    List(Seq<Seq<u8>>),
}

impl View for Field {
    type V = FieldView;

    open spec fn view(&self) -> FieldView {
        match self {
            Field::Int(number) => FieldView::Int(*number),
            Field::Bytes(bytes) => FieldView::Bytes(bytes@),
            Field::List(items) => FieldView::List(items.deep_view()),
        }
    }
}

/// The values of the fields in `fields`, in order.
pub open spec fn field_views(fields: Seq<Field>) -> Seq<FieldView> {
    Seq::new(fields.len(), |i: int| fields[i]@)
}

/// The state that the genesis transaction creates: block zero with the
/// difficulty target `current_hash`, the initial difficulty, and
/// `current_posix_time` as its time.
pub open spec fn genesis_state(current_hash: Seq<u8>, current_posix_time: u64) -> StateView {
    StateView {
        block_number: 0,
        current_hash,
        leading_zeros: GENESIS_LEADING_ZEROS,
        difficulty_number: GENESIS_DIFFICULTY_NUMBER,
        epoch_time: 0,
        current_posix_time,
        extra: 0,
        interlink: Seq::empty(),
    }
}

/// The raw fields of `state`, in the order of the datum's layout.
pub open spec fn state_fields(state: StateView) -> Seq<FieldView> {
    seq![
        FieldView::Int(state.block_number),
        FieldView::Bytes(state.current_hash),
        FieldView::Int(state.leading_zeros),
        FieldView::Int(state.difficulty_number),
        FieldView::Int(state.epoch_time),
        FieldView::Int(state.current_posix_time),
        FieldView::Int(state.extra),
        FieldView::List(state.interlink),
    ]
}

/// The state whose raw fields are `fields`, if `fields` has the layout of
/// the datum: eight fields of the kinds that `state_fields` gives, in its
/// order.
pub open spec fn decoded_state(fields: Seq<FieldView>) -> Option<StateView> {
    if fields.len() == 8 {
        match (
            fields[0],
            fields[1],
            fields[2],
            fields[3],
            fields[4],
            fields[5],
            fields[6],
            fields[7],
        ) {
            (
                FieldView::Int(block_number),
                FieldView::Bytes(current_hash),
                FieldView::Int(leading_zeros),
                FieldView::Int(difficulty_number),
                FieldView::Int(epoch_time),
                FieldView::Int(current_posix_time),
                FieldView::Int(extra),
                FieldView::List(interlink),
            ) => Some(
                StateView {
                    block_number,
                    current_hash,
                    leading_zeros,
                    difficulty_number,
                    epoch_time,
                    current_posix_time,
                    extra,
                    interlink,
                },
            ),
            _ => None,
        }
    } else {
        None
    }
}

/// The mathematical value of an optional state.
pub open spec fn state_option_view(state: Option<State>) -> Option<StateView> {
    match state {
        Some(state) => Some(state@),
        None => None,
    }
}

/// Decoding the raw fields of a state gives that state back.
pub proof fn lemma_fields_round_trip(state: StateView)
    ensures
        decoded_state(state_fields(state)) == Some(state),
{
}

/// Copies a byte string.
pub fn copy_bytes(bytes: &Vec<u8>) -> (copy: Vec<u8>)
    ensures
        copy@ == bytes@,
{
    let mut copy: Vec<u8> = Vec::new();
    let mut done: usize = 0;
    while done < bytes.len()
        invariant
            done <= bytes@.len(),
            copy@ == bytes@.subrange(0, done as int),
        decreases bytes@.len() - done,
    {
        copy.push(bytes[done]);
        done = done + 1;
        assert(copy@ =~= bytes@.subrange(0, done as int));
    }
    assert(bytes@.subrange(0, done as int) =~= bytes@);
    copy
}

/// Copies a list of byte strings.
pub fn copy_byte_strings(items: &Vec<Vec<u8>>) -> (copy: Vec<Vec<u8>>)
    ensures
        copy.deep_view() == items.deep_view(),
{
    let mut copy: Vec<Vec<u8>> = Vec::new();
    let mut done: usize = 0;
    while done < items.len()
        invariant
            done <= items@.len(),
            copy@.len() == done,
            forall|j: int| 0 <= j < done ==> (#[trigger] copy@[j])@ == items@[j]@,
        decreases items@.len() - done,
    {
        copy.push(copy_bytes(&items[done]));
        done = done + 1;
    }
    assert(copy.deep_view() =~~= items.deep_view());
    copy
}

impl State {
    /// The state of a freshly bootstrapped contract.
    pub fn genesis(current_hash: Vec<u8>, current_posix_time: u64) -> (state: State)
        ensures
            state@ == genesis_state(current_hash@, current_posix_time),
    {
        let state = State {
            block_number: 0,
            current_hash,
            leading_zeros: GENESIS_LEADING_ZEROS,
            difficulty_number: GENESIS_DIFFICULTY_NUMBER,
            epoch_time: 0,
            current_posix_time,
            extra: 0,
            interlink: Vec::new(),
        };
        assert(state.interlink.deep_view() =~= Seq::<Seq<u8>>::empty());
        state
    }

    /// Decodes a state from its raw fields.
    pub fn from_fields(fields: Vec<Field>) -> (state: Option<State>)
        ensures
            state_option_view(state) == decoded_state(field_views(fields@)),
    {
        if fields.len() != 8 {
            return None;
        }
        let ghost views = field_views(fields@);
        let mut rest = fields;
        let interlink = rest.pop();
        let extra = rest.pop();
        let current_posix_time = rest.pop();
        let epoch_time = rest.pop();
        let difficulty_number = rest.pop();
        let leading_zeros = rest.pop();
        let current_hash = rest.pop();
        let block_number = rest.pop();
        proof {
            assert(views[0] == fields@[0]@);
            assert(views[1] == fields@[1]@);
            assert(views[2] == fields@[2]@);
            assert(views[3] == fields@[3]@);
            assert(views[4] == fields@[4]@);
            assert(views[5] == fields@[5]@);
            assert(views[6] == fields@[6]@);
            assert(views[7] == fields@[7]@);
        }
        match (
            block_number,
            current_hash,
            leading_zeros,
            difficulty_number,
            epoch_time,
            current_posix_time,
            extra,
            interlink,
        ) {
            (
                Some(Field::Int(block_number)),
                Some(Field::Bytes(current_hash)),
                Some(Field::Int(leading_zeros)),
                Some(Field::Int(difficulty_number)),
                Some(Field::Int(epoch_time)),
                Some(Field::Int(current_posix_time)),
                Some(Field::Int(extra)),
                Some(Field::List(interlink)),
            ) => Some(
                State {
                    block_number,
                    current_hash,
                    leading_zeros,
                    difficulty_number,
                    epoch_time,
                    current_posix_time,
                    extra,
                    interlink,
                },
            ),
            _ => None,
        }
    }

    /// Projects the state into its raw fields.
    pub fn fields(&self) -> (fields: Vec<Field>)
        ensures
            field_views(fields@) == state_fields(self@),
    {
        let mut fields: Vec<Field> = Vec::new();
        fields.push(Field::Int(self.block_number));
        fields.push(Field::Bytes(copy_bytes(&self.current_hash)));
        fields.push(Field::Int(self.leading_zeros));
        fields.push(Field::Int(self.difficulty_number));
        fields.push(Field::Int(self.epoch_time));
        fields.push(Field::Int(self.current_posix_time));
        fields.push(Field::Int(self.extra));
        fields.push(Field::List(copy_byte_strings(&self.interlink)));
        assert(field_views(fields@) =~= state_fields(self@));
        fields
    }
}

impl Clone for State {
    fn clone(&self) -> (copy: State)
        ensures
            copy@ == self@,
    {
        State {
            block_number: self.block_number,
            current_hash: copy_bytes(&self.current_hash),
            leading_zeros: self.leading_zeros,
            difficulty_number: self.difficulty_number,
            epoch_time: self.epoch_time,
            current_posix_time: self.current_posix_time,
            extra: self.extra,
            interlink: copy_byte_strings(&self.interlink),
        }
    }
}

} // verus!
