//! The positions of all users, one per account.
use vstd::prelude::*;

use crate::account::AccountId;
use crate::position::{empty_position, UserPosition};

verus! {

/// The position of `account` in `positions`: the stored one, or the empty
/// position when nothing is stored for it.
pub open spec fn position_in(positions: Map<Seq<u8>, UserPosition>, account: Seq<u8>) -> UserPosition {
    if positions.dom().contains(account) {
        positions[account]
    } else {
        empty_position()
    }
}

/// One account together with its position.
pub struct PositionEntry {
    pub account: AccountId,
    pub position: UserPosition,
}

/// The positions of the users, keyed by account; no account occurs twice.
pub struct PositionBook {
    entries: Vec<PositionEntry>,
}

impl PositionBook {
    #[verifier::type_invariant]
    spec fn accounts_distinct(self) -> bool {
        forall|i: int, j: int|
            0 <= i < j < self.entries.len() ==> #[trigger] self.entries[i].account@
                != #[trigger] self.entries[j].account@
    }

    /// Whether some entry is kept for `account`.
    spec fn holds(self, account: Seq<u8>) -> bool {
        exists|i: int| 0 <= i < self.entries.len() && #[trigger] self.entries[i].account@ == account
    }
}

impl View for PositionBook {
    type V = Map<Seq<u8>, UserPosition>;

    closed spec fn view(&self) -> Map<Seq<u8>, UserPosition> {
        Map::new(
            |k: Seq<u8>| self.holds(k),
            |k: Seq<u8>|
                self.entries[choose|i: int|
                    0 <= i < self.entries.len() && #[trigger] self.entries[i].account@ == k].position,
        )
    }
}

impl PositionBook {
    /// A book with no positions.
    pub fn new() -> (r: PositionBook)
        ensures
            r@ == Map::<Seq<u8>, UserPosition>::empty(),
    {
        let r = PositionBook { entries: Vec::new() };
        assert(r@ =~= Map::<Seq<u8>, UserPosition>::empty());
        r
    }

    /// The index of the entry of `account`, if there is one.
    fn find(&self, account: &AccountId) -> (r: Option<usize>)
        ensures
            match r {
                Some(i) => i < self.entries.len() && self.entries[i as int].account@ == account@,
                None => !self.holds(account@),
            },
    {
        let n = self.entries.len();
        let mut i: usize = 0;
        while i < n
            invariant
                n == self.entries.len(),
                i <= n,
                forall|j: int| 0 <= j < i ==> self.entries[j].account@ != account@,
            decreases n - i,
        {
            if self.entries[i].account.same_as(account) {
                return Some(i);
            }
            i = i + 1;
        }
        None
    }

    /// The position of `account`; the empty position when none is stored.
    pub fn position(&self, account: &AccountId) -> (r: UserPosition)
        ensures
            r == position_in(self@, account@),
    {
        proof {
            use_type_invariant(self);
        }
        match self.find(account) {
            Some(i) => {
                let ghost k = account@;
                let ghost c = choose|j: int|
                    0 <= j < self.entries.len() && #[trigger] self.entries[j].account@ == k;
                assert(self.entries[i as int].account@ == k);
                assert(self.holds(k));
                assert(c == i as int);
                self.entries[i].position
            },
            None => {
                assert(!self@.dom().contains(account@));
                UserPosition::empty()
            },
        }
    }

    /// Stores `position` as the position of `account`.
    pub fn set(&mut self, account: &AccountId, position: UserPosition)
        ensures
            final(self)@ == old(self)@.insert(account@, position),
    {
        proof {
            use_type_invariant(&*self);
        }
        let ghost old_book = *self;
        match self.find(account) {
            Some(i) => {
                let entry = PositionEntry { account: account.duplicate(), position };
                let mut entries: Vec<PositionEntry> = Vec::new();
                std::mem::swap(&mut entries, &mut self.entries);
                entries.set(i, entry);
                self.entries = entries;
                assert forall|k: Seq<u8>| #![auto] self@.dom().contains(k) <==> old_book@.insert(account@, position).dom().contains(k) by {
                    if old_book.holds(k) {
                        let j = choose|j: int| 0 <= j < old_book.entries.len() && #[trigger] old_book.entries[j].account@ == k;
                        assert(self.entries[j].account@ == k);
                    }
                    if self.holds(k) {
                        let j = choose|j: int| 0 <= j < self.entries.len() && #[trigger] self.entries[j].account@ == k;
                        assert(old_book.entries[j].account@ == k);
                    }
                }
                assert forall|k: Seq<u8>| #![auto] self@.dom().contains(k) implies self@[k] == old_book@.insert(account@, position)[k] by {
                    let j = choose|j: int| 0 <= j < self.entries.len() && #[trigger] self.entries[j].account@ == k;
                    if k == account@ {
                        assert(j == i as int);
                    } else {
                        assert(old_book.entries[j].account@ == k);
                        let jo = choose|jo: int| 0 <= jo < old_book.entries.len() && #[trigger] old_book.entries[jo].account@ == k;
                        assert(jo == j);
                    }
                }
                assert(self@ =~= old_book@.insert(account@, position));
            },
            None => {
                let entry = PositionEntry { account: account.duplicate(), position };
                let mut entries: Vec<PositionEntry> = Vec::new();
                std::mem::swap(&mut entries, &mut self.entries);
                entries.push(entry);
                self.entries = entries;
                let ghost n = old_book.entries.len() as int;
                assert forall|k: Seq<u8>| #![auto] self@.dom().contains(k) <==> old_book@.insert(account@, position).dom().contains(k) by {
                    if old_book.holds(k) {
                        let j = choose|j: int| 0 <= j < old_book.entries.len() && #[trigger] old_book.entries[j].account@ == k;
                        assert(self.entries[j].account@ == k);
                    }
                    if k == account@ {
                        assert(self.entries[n].account@ == k);
                    }
                    if self.holds(k) && k != account@ {
                        let j = choose|j: int| 0 <= j < self.entries.len() && #[trigger] self.entries[j].account@ == k;
                        assert(j < n);
                        assert(old_book.entries[j].account@ == k);
                    }
                }
                assert forall|k: Seq<u8>| #![auto] self@.dom().contains(k) implies self@[k] == old_book@.insert(account@, position)[k] by {
                    let j = choose|j: int| 0 <= j < self.entries.len() && #[trigger] self.entries[j].account@ == k;
                    if k == account@ {
                        assert(j == n);
                    } else {
                        assert(j < n);
                        assert(old_book.entries[j].account@ == k);
                        let jo = choose|jo: int| 0 <= jo < old_book.entries.len() && #[trigger] old_book.entries[jo].account@ == k;
                        assert(jo == j);
                    }
                }
                assert(self@ =~= old_book@.insert(account@, position));
            },
        }
    }
}

} // verus!
