//! The socket slab: a growable arena that keeps each socket under a token
//! from the moment it is inserted until it is removed.
use vstd::prelude::*;

use crate::reactor::Token;

verus! {

/// An arena of sockets. Entry `i` is known to the outside as token
/// `first + i`. Empty entries are kept on a stack and handed out again, the
/// one freed last first; entries that were added by growing come before
/// those, lowest token first.
pub struct Slab<S> {
    entries: Vec<Option<S>>,
    free: Vec<usize>,
    first: usize,
}

impl<S> Slab<S> {
    /// The invariant of the arena: every token fits in a `usize`, and the
    /// stack of free entries lists each empty entry exactly once.
    pub closed spec fn wf(&self) -> bool {
        &&& self.first + self.entries.len() <= usize::MAX
        &&& forall|k: int|
            0 <= k < self.free.len() ==> (#[trigger] self.free[k]) < self.entries.len()
                && self.entries[self.free[k] as int] is None
        &&& forall|j: int, k: int|
            0 <= j < k < self.free.len() ==> self.free[j] != self.free[k]
        &&& forall|i: int|
            0 <= i < self.entries.len() && (#[trigger] self.entries[i]) is None ==> exists|k: int|
                0 <= k < self.free.len() && self.free[k] == i
    }

    /// The sockets held, by the number of their token.
    pub closed spec fn view(&self) -> Map<usize, S> {
        Map::new(
            |t: usize|
                self.first <= t < self.first + self.entries.len() && self.entries[t
                    - self.first] is Some,
            |t: usize| self.entries[t - self.first]->Some_0,
        )
    }

    /// The token of the first entry.
    pub closed spec fn first_token(&self) -> usize {
        self.first
    }

    /// How many entries there are, used or not.
    pub closed spec fn capacity(&self) -> nat {
        self.entries.len() as nat
    }

    /// How many entries are empty.
    pub closed spec fn remaining(&self) -> nat {
        self.free.len() as nat
    }

    /// The tokens of the empty entries, in the order in which `insert` will
    /// hand them out.
    pub closed spec fn upcoming(&self) -> Seq<usize> {
        Seq::new(
            self.free.len() as nat,
            |k: int| (self.first + self.free[self.free.len() - 1 - k]) as usize,
        )
    }

    /// The tokens from `from` on, `n` of them.
    pub open spec fn tokens_from(from: int, n: nat) -> Seq<usize> {
        Seq::new(n, |k: int| (from + k) as usize)
    }

    /// Whether `n` more entries can be added without running out of tokens.
    pub open spec fn can_grow(&self, n: usize) -> bool {
        self.first_token() + self.capacity() + n <= usize::MAX
    }

    /// Every token in use lies in the range that the capacity spans, as
    /// does every free token; no free token is in use; and there are as
    /// many free tokens as empty entries.
    pub proof fn lemma_counts(&self)
        requires
            self.wf(),
        ensures
            forall|t: usize|
                self@.contains_key(t) ==> self.first_token() <= t < self.first_token()
                    + self.capacity(),
            forall|k: int|
                0 <= k < self.upcoming().len() ==> self.first_token() <= (
                #[trigger] self.upcoming()[k]) < self.first_token() + self.capacity()
                    && !self@.contains_key(self.upcoming()[k]),
            self.upcoming().len() == self.remaining(),
            self.first_token() + self.capacity() <= usize::MAX,
    {
    }

    /// An arena without entries whose first token will be `first`.
    pub fn new_starting_at(first: Token) -> (slab: Slab<S>)
        ensures
            slab.wf(),
            slab@ == Map::<usize, S>::empty(),
            slab.first_token() == first.0,
            slab.capacity() == 0,
            slab.remaining() == 0,
            slab.upcoming() == Seq::<usize>::empty(),
    {
        let slab = Slab { entries: Vec::new(), free: Vec::new(), first: first.0 };
        slab
    }

    /// Whether a socket is held under `token`.
    pub fn contains(&self, token: Token) -> (b: bool)
        requires
            self.wf(),
        ensures
            b == self@.contains_key(token.0),
    {
        if token.0 < self.first {
            return false;
        }
        let index: usize = token.0 - self.first;
        if index >= self.entries.len() {
            return false;
        }
        self.entries[index].is_some()
    }

    /// The socket held under `token`, if there is one.
    pub fn get(&self, token: Token) -> (r: Option<&S>)
        requires
            self.wf(),
        ensures
            match r {
                Some(s) => self@.contains_key(token.0) && *s == self@[token.0],
                None => !self@.contains_key(token.0),
            },
    {
        if token.0 < self.first {
            return None;
        }
        let index: usize = token.0 - self.first;
        if index >= self.entries.len() {
            return None;
        }
        self.entries[index].as_ref()
    }

    /// The socket held under `token`, to be changed in place.
    pub fn get_mut(&mut self, token: Token) -> (r: Option<&mut S>)
        requires
            old(self).wf(),
        ensures
            final(self).wf(),
            final(self).first_token() == old(self).first_token(),
            final(self).capacity() == old(self).capacity(),
            final(self).remaining() == old(self).remaining(),
            final(self).upcoming() == old(self).upcoming(),
            match r {
                Some(s) => {
                    &&& old(self)@.contains_key(token.0)
                    &&& *s == old(self)@[token.0]
                    &&& final(self)@ == old(self)@.insert(token.0, *final(s))
                },
                None => !old(self)@.contains_key(token.0) && final(self)@ == old(self)@,
            },
    {
        if token.0 < self.first {
            return None;
        }
        let index: usize = token.0 - self.first;
        if index >= self.entries.len() {
            return None;
        }
        if self.entries[index].is_none() {
            return None;
        }
        let entry: &mut Option<S> = &mut self.entries[index];
        let r = entry.as_mut();
        r
    }

    /// Whether an entry is empty, so that `insert` will succeed.
    pub fn has_remaining(&self) -> (b: bool)
        requires
            self.wf(),
        ensures
            b == (self.remaining() > 0),
    {
        self.free.len() > 0
    }

    /// Whether `n` more entries can be added without running out of tokens.
    pub fn room_for(&self, n: usize) -> (b: bool)
        requires
            self.wf(),
        ensures
            b == self.can_grow(n),
    {
        let used: usize = self.first + self.entries.len();
        n <= usize::MAX - used
    }

    /// Puts `socket` into an empty entry and gives its token; gives the
    /// socket back when no entry is empty.
    pub fn insert(&mut self, socket: S) -> (r: Result<Token, S>)
        requires
            old(self).wf(),
        ensures
            final(self).wf(),
            final(self).first_token() == old(self).first_token(),
            final(self).capacity() == old(self).capacity(),
            match r {
                Ok(token) => {
                    &&& old(self).remaining() > 0
                    &&& token.0 == old(self).upcoming()[0]
                    &&& !old(self)@.contains_key(token.0)
                    &&& final(self)@ == old(self)@.insert(token.0, socket)
                    &&& final(self).remaining() == old(self).remaining() - 1
                    &&& final(self).upcoming() == old(self).upcoming().drop_first()
                },
                Err(s) => {
                    &&& old(self).remaining() == 0
                    &&& s == socket
                    &&& final(self)@ == old(self)@
                    &&& final(self).remaining() == 0
                    &&& final(self).upcoming() == old(self).upcoming()
                },
            },
    {
        let index: usize = match self.free.pop() {
            Some(index) => index,
            None => {
                return Err(socket);
            },
        };
        self.entries.set(index, Some(socket));
        let token = Token(self.first + index);
        proof {
            assert forall|i: int|
                0 <= i < self.entries.len() && (#[trigger] self.entries[i]) is None implies exists|
                k: int,
            | 0 <= k < self.free.len() && self.free[k] == i by {
                let k = choose|k: int| 0 <= k < old(self).free.len() && old(self).free[k] == i;
                assert(self.free[k] == i);
            }
        }
        Ok(token)
    }

    /// Adds `n` empty entries. They will be handed out lowest token first,
    /// before the entries that were empty already.
    pub fn grow(&mut self, n: usize)
        requires
            old(self).wf(),
            old(self).can_grow(n),
        ensures
            final(self).wf(),
            final(self)@ == old(self)@,
            final(self).first_token() == old(self).first_token(),
            final(self).capacity() == old(self).capacity() + n,
            final(self).remaining() == old(self).remaining() + n,
            final(self).upcoming() == Self::tokens_from(
                old(self).first_token() + old(self).capacity(),
                n as nat,
            ) + old(self).upcoming(),
    {
        let start: usize = self.entries.len();
        let mut added: usize = 0;
        while added < n
            invariant
                added <= n,
                self.first == old(self).first,
                self.first + start + n <= usize::MAX,
                start == old(self).entries.len(),
                self.entries.len() == start + added,
                self.free == old(self).free,
                forall|i: int| 0 <= i < start ==> self.entries[i] == old(self).entries[i],
                forall|i: int| start <= i < start + added ==> self.entries[i] is None,
            decreases n - added,
        {
            self.entries.push(None);
            added = added + 1;
        }
        let mut listed: usize = 0;
        while listed < n
            invariant
                listed <= n,
                self.first == old(self).first,
                self.first + start + n <= usize::MAX,
                start == old(self).entries.len(),
                self.entries.len() == start + n,
                self.free.len() == old(self).free.len() + listed,
                forall|i: int| 0 <= i < start ==> self.entries[i] == old(self).entries[i],
                forall|i: int| start <= i < start + n ==> self.entries[i] is None,
                forall|k: int| 0 <= k < old(self).free.len() ==> self.free[k] == old(self).free[k],
                forall|k: int|
                    old(self).free.len() <= k < self.free.len() ==> self.free[k] == start + n - 1
                        - (k - old(self).free.len()),
                old(self).wf(),
            decreases n - listed,
        {
            self.free.push(start + (n - 1 - listed));
            listed = listed + 1;
        }
        proof {
            assert forall|i: int|
                0 <= i < self.entries.len() && (#[trigger] self.entries[i]) is None implies exists|
                k: int,
            | 0 <= k < self.free.len() && self.free[k] == i by {
                if i >= start {
                    let k = old(self).free.len() + (start + n - 1 - i);
                    assert(self.free[k] == i);
                }
            }
        }
    }

    /// Takes the socket held under `token` out of the arena.
    pub fn remove(&mut self, token: Token) -> (r: Option<S>)
        requires
            old(self).wf(),
        ensures
            final(self).wf(),
            final(self).first_token() == old(self).first_token(),
            final(self).capacity() == old(self).capacity(),
            match r {
                Some(s) => {
                    &&& old(self)@.contains_key(token.0)
                    &&& s == old(self)@[token.0]
                    &&& final(self)@ == old(self)@.remove(token.0)
                    &&& final(self).remaining() == old(self).remaining() + 1
                    &&& final(self).upcoming() == seq![token.0] + old(self).upcoming()
                },
                None => {
                    &&& !old(self)@.contains_key(token.0)
                    &&& final(self)@ == old(self)@
                    &&& final(self).remaining() == old(self).remaining()
                    &&& final(self).upcoming() == old(self).upcoming()
                },
            },
    {
        if token.0 < self.first {
            return None;
        }
        let index: usize = token.0 - self.first;
        if index >= self.entries.len() {
            return None;
        }
        if self.entries[index].is_none() {
            return None;
        }
        let mut taken: Option<S> = None;
        self.entries.set_and_swap(index, &mut taken);
        self.free.push(index);
        proof {
            assert forall|j: int, k: int| 0 <= j < k < self.free.len() implies self.free[j]
                != self.free[k] by {
            }
            assert forall|i: int|
                0 <= i < self.entries.len() && (#[trigger] self.entries[i]) is None implies exists|
                k: int,
            | 0 <= k < self.free.len() && self.free[k] == i by {
                if i == index {
                    assert(self.free[self.free.len() - 1] == i);
                } else {
                    let k = choose|k: int| 0 <= k < old(self).free.len() && old(self).free[k] == i;
                    assert(self.free[k] == i);
                }
            }
        }
        taken
    }
}

} // verus!
