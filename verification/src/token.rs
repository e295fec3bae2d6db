//! Token identifiers and the token holdings of an output.

use vstd::prelude::*;

verus! {

/// Names a kind of token on the ledger: the ledger's own currency, or a
/// native token given by the identifier of its minting policy and,
/// optionally, an asset name under that policy.
#[derive(Debug, PartialEq, Eq)]
pub enum TokenId {
    Ada,
    NativeToken(String, Option<String>),
}

/// The mathematical value of a `TokenId`.
pub enum TokenKey {
    Ada,
    NativeToken(Seq<char>, Option<Seq<char>>),
}

/// The mathematical value of an optional name.
pub open spec fn name_view(name: Option<String>) -> Option<Seq<char>> {
    match name {
        Some(text) => Some(text@),
        None => None,
    }
}

impl View for TokenId {
    type V = TokenKey;

    open spec fn view(&self) -> TokenKey {
        match self {
            TokenId::Ada => TokenKey::Ada,
            TokenId::NativeToken(policy, asset) => TokenKey::NativeToken(
                policy@,
                name_view(*asset),
            ),
        }
    }
}

/// Copies an optional name.
pub fn copy_name(name: &Option<String>) -> (copy: Option<String>)
    ensures
        name_view(copy) == name_view(*name),
{
    match name {
        Some(text) => Some(text.clone()),
        None => None,
    }
}

/// Tells whether two optional names are the same.
pub fn same_name(left: &Option<String>, right: &Option<String>) -> (same: bool)
    ensures
        same == (name_view(*left) == name_view(*right)),
{
    match (left, right) {
        (Some(a), Some(b)) => *a == *b,
        (None, None) => true,
        _ => false,
    }
}

impl TokenId {
    /// The token of the minting policy `policy` with the asset name `asset`.
    pub fn native_token(policy: &str, asset: &Option<String>) -> (token: TokenId)
        ensures
            token@ == TokenKey::NativeToken(policy@, name_view(*asset)),
    {
        TokenId::NativeToken(policy.to_owned(), copy_name(asset))
    }

    /// Tells whether `self` and `other` name the same token.
    pub fn same_as(&self, other: &TokenId) -> (same: bool)
        ensures
            same == (self@ == other@),
    {
        match (self, other) {
            (TokenId::Ada, TokenId::Ada) => true,
            (TokenId::NativeToken(p, a), TokenId::NativeToken(q, b)) => *p == *q && same_name(
                a,
                b,
            ),
            _ => false,
        }
    }
}

impl Clone for TokenId {
    fn clone(&self) -> (copy: TokenId)
        ensures
            copy@ == self@,
    {
        match self {
            TokenId::Ada => TokenId::Ada,
            TokenId::NativeToken(policy, asset) => TokenId::NativeToken(
                policy.clone(),
                copy_name(asset),
            ),
        }
    }
}

/// The amount that the first entry for `token` in `entries` records, if
/// there is such an entry.
pub open spec fn amount_in(entries: Seq<(TokenId, u64)>, token: TokenKey) -> Option<u64>
    decreases entries.len(),
{
    if entries.len() == 0 {
        None
    } else if entries[0].0@ == token {
        Some(entries[0].1)
    } else {
        amount_in(entries.drop_first(), token)
    }
}

/// Without an entry for `token` there is no amount of it.
proof fn lemma_amount_absent(entries: Seq<(TokenId, u64)>, token: TokenKey)
    requires
        forall|j: int| 0 <= j < entries.len() ==> (#[trigger] entries[j]).0@ != token,
    ensures
        amount_in(entries, token) is None,
    decreases entries.len(),
{
    if entries.len() > 0 {
        assert(entries[0].0@ != token);
        let rest = entries.drop_first();
        assert forall|j: int| 0 <= j < rest.len() implies (#[trigger] rest[j]).0@ != token by {
            assert(rest[j] == entries[j + 1]);
        }
        lemma_amount_absent(rest, token);
    }
}

/// The first entry for `token` gives its amount.
proof fn lemma_amount_first(entries: Seq<(TokenId, u64)>, token: TokenKey, at: int)
    requires
        0 <= at < entries.len(),
        entries[at].0@ == token,
        forall|j: int| 0 <= j < at ==> (#[trigger] entries[j]).0@ != token,
    ensures
        amount_in(entries, token) == Some(entries[at].1),
    decreases at,
{
    if at > 0 {
        assert(entries[0].0@ != token);
        let rest = entries.drop_first();
        assert(rest[at - 1] == entries[at]);
        assert forall|j: int| 0 <= j < at - 1 implies (#[trigger] rest[j]).0@ != token by {
            assert(rest[j] == entries[j + 1]);
        }
        lemma_amount_first(rest, token, at - 1);
    }
}

/// Replacing the amount of one entry changes the amount of that entry's
/// token, where the entry is the first for it, and of no other token.
proof fn lemma_amount_after_update(
    entries: Seq<(TokenId, u64)>,
    at: int,
    entry: (TokenId, u64),
    other: TokenKey,
)
    requires
        0 <= at < entries.len(),
        entry.0@ == entries[at].0@,
        other != entry.0@,
    ensures
        amount_in(entries.update(at, entry), other) == amount_in(entries, other),
    decreases entries.len(),
{
    let updated = entries.update(at, entry);
    if at == 0 {
        assert(updated.drop_first() =~= entries.drop_first());
    } else {
        assert(updated[0] == entries[0]);
        assert(updated.drop_first() =~= entries.drop_first().update(at - 1, entry));
        if entries[0].0@ != other {
            lemma_amount_after_update(entries.drop_first(), at - 1, entry, other);
        }
    }
}

/// Appending an entry adds an amount for its token where there was none,
/// and changes nothing else.
proof fn lemma_amount_after_push(
    entries: Seq<(TokenId, u64)>,
    entry: (TokenId, u64),
    other: TokenKey,
)
    ensures
        amount_in(entries.push(entry), other) == if amount_in(entries, other) is Some {
            amount_in(entries, other)
        } else if other == entry.0@ {
            Some(entry.1)
        } else {
            None
        },
    decreases entries.len(),
{
    let pushed = entries.push(entry);
    if entries.len() == 0 {
        assert(pushed[0] == entry);
        assert(amount_in(pushed.drop_first(), other) is None);
    } else {
        assert(pushed[0] == entries[0]);
        assert(pushed.drop_first() =~= entries.drop_first().push(entry));
        if entries[0].0@ != other {
            lemma_amount_after_push(entries.drop_first(), entry, other);
        }
    }
}

/// A list that records no amount of `token` has no entry for it.
proof fn lemma_entry_absent(entries: Seq<(TokenId, u64)>, token: TokenKey)
    requires
        amount_in(entries, token) is None,
    ensures
        forall|j: int| 0 <= j < entries.len() ==> (#[trigger] entries[j]).0@ != token,
    decreases entries.len(),
{
    if entries.len() > 0 {
        let rest = entries.drop_first();
        lemma_entry_absent(rest, token);
        assert forall|j: int| 0 <= j < entries.len() implies (#[trigger] entries[j]).0@
            != token by {
            if j > 0 {
                assert(entries[j] == rest[j - 1]);
            }
        }
    }
}

/// The token holdings of an output: an amount for each of finitely many
/// tokens.
#[derive(Debug, PartialEq, Eq)]
pub struct Values {
    entries: Vec<(TokenId, u64)>,
}

impl View for Values {
    type V = Map<TokenKey, u64>;

    closed spec fn view(&self) -> Map<TokenKey, u64> {
        Map::new(
            |token: TokenKey| amount_in(self.entries@, token) is Some,
            |token: TokenKey| amount_in(self.entries@, token)->0,
        )
    }
}

impl Values {
    /// The sum that `add_one_value` records for `token` when `amount` is
    /// added to `held`.
    pub open spec fn total_after(held: Map<TokenKey, u64>, token: TokenKey, amount: u64) -> int {
        if held.contains_key(token) {
            held[token] + amount
        } else {
            amount as int
        }
    }

    /// Holdings without any token.
    pub fn new() -> (values: Values)
        ensures
            values@ == Map::<TokenKey, u64>::empty(),
    {
        let values = Values { entries: Vec::new() };
        assert(values@ =~= Map::<TokenKey, u64>::empty());
        values
    }

    /// Index of the first entry for `token`, or the number of entries if
    /// there is none.
    fn position(&self, token: &TokenId) -> (at: usize)
        ensures
            at <= self.entries@.len(),
            at < self.entries@.len() ==> self.entries@[at as int].0@ == token@,
            forall|j: int| 0 <= j < at ==> (#[trigger] self.entries@[j]).0@ != token@,
    {
        let mut at: usize = 0;
        while at < self.entries.len()
            invariant
                at <= self.entries@.len(),
                forall|j: int| 0 <= j < at ==> (#[trigger] self.entries@[j]).0@ != token@,
            decreases self.entries@.len() - at,
        {
            if self.entries[at].0.same_as(token) {
                return at;
            }
            at = at + 1;
        }
        at
    }

    /// The amount held of `token`, if any is recorded.
    pub fn get(&self, token: &TokenId) -> (amount: Option<u64>)
        ensures
            amount == if self@.contains_key(token@) {
                Some(self@[token@])
            } else {
                None
            },
    {
        let at = self.position(token);
        if at < self.entries.len() {
            proof {
                lemma_amount_first(self.entries@, token@, at as int);
            }
            Some(self.entries[at].1)
        } else {
            proof {
                lemma_amount_absent(self.entries@, token@);
            }
            None
        }
    }

    /// The holdings as a list: each token that is held, once, with its
    /// amount.
    pub fn vec(&self) -> (list: Vec<(TokenId, u64)>)
        ensures
            forall|token: TokenKey|
                #[trigger] amount_in(list@, token) == if self@.contains_key(token) {
                    Some(self@[token])
                } else {
                    None
                },
            forall|i: int, j: int| 0 <= i < j < list@.len() ==> list@[i].0@ != list@[j].0@,
    {
        let mut list: Vec<(TokenId, u64)> = Vec::new();
        let mut done: usize = 0;
        while done < self.entries.len()
            invariant
                done <= self.entries@.len(),
                forall|token: TokenKey|
                    #[trigger] amount_in(list@, token) == amount_in(
                        self.entries@.take(done as int),
                        token,
                    ),
                forall|i: int, j: int| 0 <= i < j < list@.len() ==> list@[i].0@ != list@[j].0@,
            decreases self.entries@.len() - done,
        {
            let first = self.position(&self.entries[done].0);
            let ghost token = self.entries@[done as int].0@;
            let ghost seen = self.entries@.take(done as int);
            let ghost next = self.entries@.take(done + 1);
            let ghost before = list@;
            proof {
                assert(next =~= seen.push(self.entries@[done as int]));
                assert(first <= done);
                assert forall|other: TokenKey| #[trigger]
                    amount_in(next, other) == if amount_in(seen, other) is Some {
                        amount_in(seen, other)
                    } else if other == token {
                        Some(self.entries@[done as int].1)
                    } else {
                        None
                    } by {
                    lemma_amount_after_push(seen, self.entries@[done as int], other);
                }
            }
            if first == done {
                let entry = (self.entries[done].0.clone(), self.entries[done].1);
                list.push(entry);
                proof {
                    assert forall|j: int| 0 <= j < seen.len() implies (#[trigger] seen[j]).0@
                        != token by {
                        assert(seen[j] == self.entries@[j]);
                    }
                    lemma_amount_absent(seen, token);
                    assert(amount_in(before, token) is None);
                    lemma_entry_absent(before, token);
                    assert forall|other: TokenKey| #[trigger]
                        amount_in(list@, other) == amount_in(next, other) by {
                        lemma_amount_after_push(before, entry, other);
                        assert(amount_in(before, other) == amount_in(seen, other));
                    }
                }
            } else {
                proof {
                    assert forall|j: int| 0 <= j < first implies (#[trigger] seen[j]).0@
                        != token by {
                        assert(seen[j] == self.entries@[j]);
                    }
                    assert(seen[first as int] == self.entries@[first as int]);
                    lemma_amount_first(seen, token, first as int);
                    assert forall|other: TokenKey| #[trigger]
                        amount_in(list@, other) == amount_in(next, other) by {
                        assert(amount_in(before, other) == amount_in(seen, other));
                    }
                }
            }
            done = done + 1;
        }
        assert(self.entries@.take(done as int) =~= self.entries@);
        list
    }

    /// Adds `amount` to what is held of `token`.
    pub fn add_one_value(&mut self, token: &TokenId, amount: u64)
        requires
            Self::total_after(old(self)@, token@, amount) <= u64::MAX,
        ensures
            final(self)@ == old(self)@.insert(
                token@,
                Self::total_after(old(self)@, token@, amount) as u64,
            ),
    {
        let at = self.position(token);
        let ghost before = self.entries@;
        if at < self.entries.len() {
            proof {
                lemma_amount_first(before, token@, at as int);
            }
            let total: u64 = self.entries[at].1 + amount;
            let entry = (token.clone(), total);
            self.entries.set(at, entry);
            proof {
                lemma_amount_first(self.entries@, token@, at as int);
                assert forall|other: TokenKey| other != token@ implies amount_in(
                    self.entries@,
                    other,
                ) == amount_in(before, other) by {
                    lemma_amount_after_update(before, at as int, entry, other);
                }
            }
        } else {
            proof {
                lemma_amount_absent(before, token@);
            }
            let entry = (token.clone(), amount);
            self.entries.push(entry);
            proof {
                assert forall|other: TokenKey|
                    amount_in(self.entries@, other) == if amount_in(before, other) is Some {
                        amount_in(before, other)
                    } else if other == token@ {
                        Some(amount)
                    } else {
                        None
                    } by {
                    lemma_amount_after_push(before, entry, other);
                }
            }
        }
        assert(self@ =~= old(self)@.insert(
            token@,
            Self::total_after(old(self)@, token@, amount) as u64,
        ));
    }
}

impl Clone for Values {
    fn clone(&self) -> (copy: Values)
        ensures
            copy@ == self@,
    {
        let mut entries: Vec<(TokenId, u64)> = Vec::new();
        let mut done: usize = 0;
        while done < self.entries.len()
            invariant
                done <= self.entries@.len(),
                entries@.len() == done,
                forall|j: int|
                    0 <= j < done ==> (#[trigger] entries@[j]).0@ == self.entries@[j].0@
                        && entries@[j].1 == self.entries@[j].1,
            decreases self.entries@.len() - done,
        {
            entries.push((self.entries[done].0.clone(), self.entries[done].1));
            done = done + 1;
        }
        let copy = Values { entries };
        proof {
            assert forall|token: TokenKey|
                amount_in(copy.entries@, token) == amount_in(self.entries@, token) by {
                lemma_amount_alike(copy.entries@, self.entries@, token);
            }
            assert(copy@ =~= self@);
        }
        copy
    }
}

/// Entry lists that agree entry by entry in token and amount record the
/// same amounts.
proof fn lemma_amount_alike(
    left: Seq<(TokenId, u64)>,
    right: Seq<(TokenId, u64)>,
    token: TokenKey,
)
    requires
        left.len() == right.len(),
        forall|j: int|
            0 <= j < left.len() ==> (#[trigger] left[j]).0@ == right[j].0@ && left[j].1
                == right[j].1,
    ensures
        amount_in(left, token) == amount_in(right, token),
    decreases left.len(),
{
    if left.len() > 0 {
        assert(left[0].0@ == right[0].0@ && left[0].1 == right[0].1);
        let l = left.drop_first();
        let r = right.drop_first();
        assert forall|j: int| 0 <= j < l.len() implies (#[trigger] l[j]).0@ == r[j].0@ && l[j].1
            == r[j].1 by {
            assert(l[j] == left[j + 1]);
            assert(r[j] == right[j + 1]);
        }
        lemma_amount_alike(l, r, token);
    }
}

} // verus!
