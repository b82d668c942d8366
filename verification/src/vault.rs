//! An in-memory vault: the keychain as it is meant to behave, with nothing
//! outside the program that could interfere.

use vstd::prelude::*;

verus! {

/// One stored credential.
struct Slot {
    service: String,
    account: String,
    secret: String,
}

/// The identity under which a slot is kept.
spec fn key_of(slot: Slot) -> (Seq<char>, Seq<char>) {
    (slot.service@, slot.account@)
}

/// Where in `slots` the identity `key` is kept, if anywhere.
spec fn kept_at(slots: Seq<Slot>, key: (Seq<char>, Seq<char>), i: int) -> bool {
    0 <= i < slots.len() && key_of(slots[i]) == key
}

/// No identity is kept twice.
spec fn distinct_keys(slots: Seq<Slot>) -> bool {
    forall|i: int, j: int| 0 <= i < j < slots.len() ==> key_of(#[trigger] slots[i]) != key_of(#[trigger] slots[j])
}

/// The secrets in `slots`, by identity.
spec fn contents(slots: Seq<Slot>) -> Map<(Seq<char>, Seq<char>), Seq<char>> {
    Map::new(
        |key: (Seq<char>, Seq<char>)| exists|i: int| kept_at(slots, key, i),
        |key: (Seq<char>, Seq<char>)| slots[choose|i: int| kept_at(slots, key, i)].secret@,
    )
}

/// Secrets by identity, held in memory.
pub struct Vault {
    slots: Vec<Slot>,
}

impl Vault {
    #[verifier::type_invariant]
    spec fn well_formed(self) -> bool {
        distinct_keys(self.slots@)
    }

    /// The secrets held, by (service, account).
    pub closed spec fn view(&self) -> Map<(Seq<char>, Seq<char>), Seq<char>> {
        contents(self.slots@)
    }

    /// A vault that holds nothing.
    pub fn new() -> (vault: Vault)
        ensures
            vault@ == Map::<(Seq<char>, Seq<char>), Seq<char>>::empty(),
    {
        let vault = Vault { slots: Vec::new() };
        assert(vault@ =~= Map::<(Seq<char>, Seq<char>), Seq<char>>::empty());
        vault
    }

    /// The index of the slot kept under an identity.
    fn find(&self, service: &String, account: &String) -> (found: Option<usize>)
        ensures
            match found {
                Some(i) => kept_at(self.slots@, (service@, account@), i as int),
                None => forall|i: int| !kept_at(self.slots@, (service@, account@), i),
            },
    {
        let mut i: usize = 0;
        while i < self.slots.len()
            invariant
                i <= self.slots.len(),
                forall|j: int| 0 <= j < i ==> !kept_at(self.slots@, (service@, account@), j),
            decreases self.slots.len() - i,
        {
            if self.slots[i].service == *service && self.slots[i].account == *account {
                return Some(i);
            }
            i += 1;
        }
        None
    }

    /// The secret kept under an identity, if there is one.
    pub fn lookup(&self, service: &str, account: &str) -> (secret: Option<String>)
        ensures
            match secret {
                Some(s) => self@.dom().contains((service@, account@)) && s@ == self@[(
                    service@,
                    account@,
                )],
                None => !self@.dom().contains((service@, account@)),
            },
    {
        proof {
            use_type_invariant(self);
        }
        let service = service.to_owned();
        let account = account.to_owned();
        match self.find(&service, &account) {
            Some(i) => {
                proof {
                    let key = (service@, account@);
                    let chosen = choose|j: int| kept_at(self.slots@, key, j);
                    assert(kept_at(self.slots@, key, i as int));
                    assert(chosen == i);
                }
                Some(self.slots[i].secret.clone())
            },
            None => None,
        }
    }

    /// Keeps a secret under an identity, in place of the one kept there before.
    pub fn put(&mut self, service: &str, account: &str, secret: &str)
        ensures
            final(self)@ == old(self)@.insert((service@, account@), secret@),
    {
        proof {
            use_type_invariant(&*self);
        }
        let service = service.to_owned();
        let account = account.to_owned();
        let found = self.find(&service, &account);
        let ghost key = (service@, account@);
        let ghost before = self.slots@;
        let mut slots: Vec<Slot> = Vec::new();
        std::mem::swap(&mut slots, &mut self.slots);
        let slot = Slot { service, account, secret: secret.to_owned() };
        match found {
            Some(i) => {
                slots[i] = slot;
                proof {
                    lemma_overwrite(before, slots@, i as int);
                }
            },
            None => {
                slots.push(slot);
                proof {
                    lemma_append(before, slots@);
                }
            },
        }
        self.slots = slots;
    }

    /// Drops what is kept under an identity, and tells whether anything was.
    pub fn remove(&mut self, service: &str, account: &str) -> (removed: bool)
        ensures
            removed == old(self)@.dom().contains((service@, account@)),
            final(self)@ == old(self)@.remove((service@, account@)),
            !removed ==> final(self)@ == old(self)@,
    {
        proof {
            use_type_invariant(&*self);
        }
        let service = service.to_owned();
        let account = account.to_owned();
        match self.find(&service, &account) {
            Some(i) => {
                let ghost before = self.slots@;
                let mut slots: Vec<Slot> = Vec::new();
                std::mem::swap(&mut slots, &mut self.slots);
                slots.remove(i);
                proof {
                    lemma_drop(before, slots@, i as int);
                }
                self.slots = slots;
                true
            },
            None => {
                assert(self@.remove((service@, account@)) =~= self@);
                false
            },
        }
    }
}

/// Replacing the slot at `i` by one of the same identity changes that
/// identity's secret and nothing else.
proof fn lemma_overwrite(before: Seq<Slot>, after: Seq<Slot>, i: int)
    requires
        distinct_keys(before),
        0 <= i < before.len(),
        after.len() == before.len(),
        key_of(after[i]) == key_of(before[i]),
        forall|j: int| 0 <= j < before.len() && j != i ==> after[j] == before[j],
    ensures
        distinct_keys(after),
        contents(after) == contents(before).insert(key_of(after[i]), after[i].secret@),
{
    assert forall|j: int| 0 <= j < after.len() implies key_of(#[trigger] after[j]) == key_of(
        before[j],
    ) by {}
    let target = contents(before).insert(key_of(after[i]), after[i].secret@);
    assert forall|key: (Seq<char>, Seq<char>)| contents(after).dom().contains(key)
        == target.dom().contains(key) by {
        if contents(after).dom().contains(key) {
            let j = choose|j: int| kept_at(after, key, j);
            assert(kept_at(before, key, j));
        }
        if target.dom().contains(key) {
            if key == key_of(after[i]) {
                assert(kept_at(after, key, i));
            } else {
                let j = choose|j: int| kept_at(before, key, j);
                assert(kept_at(after, key, j));
            }
        }
    }
    assert forall|key: (Seq<char>, Seq<char>)| contents(after).dom().contains(key) implies contents(
        after,
    )[key] == target[key] by {
        let j = choose|j: int| kept_at(after, key, j);
        assert(kept_at(before, key, j));
        let k = choose|k: int| kept_at(before, key, k);
        assert(j == k);
        if key == key_of(after[i]) {
            assert(kept_at(after, key, i));
            assert(j == i);
        }
    }
    assert(contents(after) =~= target);
}

/// Adding a slot under an identity that is not kept yet adds that identity
/// with its secret and changes nothing else.
proof fn lemma_append(before: Seq<Slot>, after: Seq<Slot>)
    requires
        distinct_keys(before),
        after.len() == before.len() + 1,
        forall|j: int| 0 <= j < before.len() ==> after[j] == before[j],
        forall|j: int| !kept_at(before, key_of(after.last()), j),
    ensures
        distinct_keys(after),
        contents(after) == contents(before).insert(key_of(after.last()), after.last().secret@),
{
    let n = before.len() as int;
    let added = after[n];
    assert(added == after.last());
    assert forall|a: int, b: int| 0 <= a < b < after.len() implies key_of(#[trigger] after[a])
        != key_of(#[trigger] after[b]) by {
        if b == n {
            assert(!kept_at(before, key_of(added), a));
        }
    }
    let target = contents(before).insert(key_of(added), added.secret@);
    assert forall|key: (Seq<char>, Seq<char>)| contents(after).dom().contains(key)
        == target.dom().contains(key) by {
        if contents(after).dom().contains(key) {
            let j = choose|j: int| kept_at(after, key, j);
            if j < n {
                assert(kept_at(before, key, j));
            }
        }
        if target.dom().contains(key) {
            if key == key_of(added) {
                assert(kept_at(after, key, n));
            } else {
                let j = choose|j: int| kept_at(before, key, j);
                assert(kept_at(after, key, j));
            }
        }
    }
    assert forall|key: (Seq<char>, Seq<char>)| contents(after).dom().contains(key) implies contents(
        after,
    )[key] == target[key] by {
        let j = choose|j: int| kept_at(after, key, j);
        if key == key_of(added) {
            assert(kept_at(after, key, n));
            assert(j == n);
        } else {
            assert(j < n);
            assert(kept_at(before, key, j));
            let k = choose|k: int| kept_at(before, key, k);
            assert(j == k);
        }
    }
    assert(contents(after) =~= target);
}

/// Taking the slot at `i` out drops its identity and changes nothing else.
proof fn lemma_drop(before: Seq<Slot>, after: Seq<Slot>, i: int)
    requires
        distinct_keys(before),
        0 <= i < before.len(),
        after == before.remove(i),
    ensures
        distinct_keys(after),
        contents(after) == contents(before).remove(key_of(before[i])),
{
    let gone = key_of(before[i]);
    let shift = |j: int| if j < i { j } else { j + 1 };
    assert forall|j: int| 0 <= j < after.len() implies #[trigger] after[j] == before[shift(j)] by {}
    assert forall|a: int, b: int| 0 <= a < b < after.len() implies key_of(#[trigger] after[a])
        != key_of(#[trigger] after[b]) by {
        assert(after[a] == before[shift(a)]);
        assert(after[b] == before[shift(b)]);
    }
    let target = contents(before).remove(gone);
    assert forall|key: (Seq<char>, Seq<char>)| contents(after).dom().contains(key)
        == target.dom().contains(key) by {
        if contents(after).dom().contains(key) {
            let j = choose|j: int| kept_at(after, key, j);
            assert(after[j] == before[shift(j)]);
            assert(kept_at(before, key, shift(j)));
        }
        if target.dom().contains(key) {
            let k = choose|k: int| kept_at(before, key, k);
            assert(k != i);
            let j = if k < i { k } else { k - 1 };
            assert(after[j] == before[shift(j)]);
            assert(kept_at(after, key, j));
        }
    }
    assert forall|key: (Seq<char>, Seq<char>)| contents(after).dom().contains(key) implies contents(
        after,
    )[key] == target[key] by {
        let j = choose|j: int| kept_at(after, key, j);
        assert(after[j] == before[shift(j)]);
        assert(kept_at(before, key, shift(j)));
        let k = choose|k: int| kept_at(before, key, k);
        assert(k == shift(j));
    }
    assert(contents(after) =~= target);
}

} // verus!
