//! The set of reentrancy locks currently held: the lock entries of the contract's
//! temporary storage, each identified by its name.
use vstd::prelude::*;

verus! {

/// The held locks, by name. A name occurs at most once.
pub struct LockTable {
    held: Vec<String>,
}

impl LockTable {
    /// No name occurs twice among the held locks.
    #[verifier::type_invariant]
    spec fn each_once(self) -> bool {
        forall|a: int, b: int| 0 <= a < b < self.held@.len() ==> self.held@[a]@ != self.held@[b]@
    }

    /// The names of the held locks.
    pub closed spec fn names(&self) -> Set<Seq<char>> {
        Set::new(|n: Seq<char>| exists|i: int| 0 <= i < self.held@.len() && self.held@[i]@ == n)
    }

    /// No lock is held.
    pub fn new() -> (t: LockTable)
        ensures
            t.names() == Set::<Seq<char>>::empty(),
    {
        let t = LockTable { held: Vec::new() };
        assert(t.names() =~= Set::<Seq<char>>::empty());
        t
    }

    /// Whether the lock `name` is held.
    pub fn holds(&self, name: &String) -> (b: bool)
        ensures
            b == self.names().contains(name@),
    {
        let mut i: usize = 0;
        while i < self.held.len()
            invariant
                i <= self.held@.len(),
                forall|j: int| 0 <= j < i ==> self.held@[j]@ != name@,
            decreases self.held@.len() - i,
        {
            if self.held[i] == *name {
                assert(self.names().contains(name@)) by {
                    assert(self.held@[i as int]@ == name@);
                }
                return true;
            }
            i = i + 1;
        }
        assert(!self.names().contains(name@)) by {
            if self.names().contains(name@) {
                let k = choose|k: int| 0 <= k < self.held@.len() && self.held@[k]@ == name@;
                assert(self.held@[k]@ != name@);
            }
        }
        false
    }

    /// Take the lock `name`.
    pub fn insert(&mut self, name: String)
        ensures
            final(self).names() == old(self).names().insert(name@),
    {
        proof {
            use_type_invariant(&*self);
        }
        if !self.holds(&name) {
            let mut held: Vec<String> = Vec::new();
            std::mem::swap(&mut held, &mut self.held);
            let ghost before = held@;
            assert(before == old(self).held@);
            held.push(name);
            assert forall|n: Seq<char>| #[trigger] old(self).names().insert(name@).contains(n) == (exists|i: int| 0 <= i < held@.len() && held@[i]@ == n) by {
                if old(self).names().contains(n) {
                    let k = choose|k: int| 0 <= k < before.len() && before[k]@ == n;
                    assert(held@[k]@ == n);
                }
                if n == name@ {
                    assert(held@[before.len() as int]@ == n);
                }
                if exists|i: int| 0 <= i < held@.len() && held@[i]@ == n {
                    let k = choose|k: int| 0 <= k < held@.len() && held@[k]@ == n;
                    if k < before.len() {
                        assert(before[k]@ == n);
                    }
                }
            }
            assert forall|a: int, b: int| 0 <= a < b < held@.len() implies held@[a]@ != held@[b]@ by {
                if b == before.len() {
                    assert(before[a]@ == held@[a]@);
                    assert(old(self).names().contains(before[a]@));
                } else {
                    assert(before[a] == held@[a] && before[b] == held@[b]);
                }
            }
            self.held = held;
            assert(self.names() =~= old(self).names().insert(name@));
        } else {
            assert(old(self).names().insert(name@) =~= old(self).names());
        }
    }

    /// Release the lock `name`.
    pub fn remove(&mut self, name: &String)
        ensures
            final(self).names() == old(self).names().remove(name@),
    {
        proof {
            use_type_invariant(&*self);
        }
        let mut kept: Vec<String> = Vec::new();
        let ghost mut from: Seq<int> = Seq::empty();
        let mut i: usize = 0;
        while i < self.held.len()
            invariant
                i <= self.held@.len(),
                from.len() == kept@.len(),
                forall|a: int, b: int| 0 <= a < b < self.held@.len() ==> self.held@[a]@ != self.held@[b]@,
                forall|j: int| 0 <= j < kept@.len() ==> 0 <= #[trigger] from[j] < i && kept@[j]@ == self.held@[from[j]]@ && kept@[j]@ != name@,
                forall|a: int, b: int| 0 <= a < b < from.len() ==> from[a] < from[b],
                forall|k: int| 0 <= k < i && self.held@[k]@ != name@ ==> exists|j: int| 0 <= j < from.len() && #[trigger] from[j] == k,
            decreases self.held@.len() - i,
        {
            if !(self.held[i] == *name) {
                let ghost before = from;
                kept.push(self.held[i].clone());
                proof {
                    from = from.push(i as int);
                    assert forall|k: int| 0 <= k < i + 1 && self.held@[k]@ != name@ implies exists|j: int| 0 <= j < from.len() && #[trigger] from[j] == k by {
                        if k < i {
                            let j = choose|j: int| 0 <= j < before.len() && #[trigger] before[j] == k;
                            assert(from[j] == k);
                        } else {
                            assert(from[before.len() as int] == k);
                        }
                    }
                }
            }
            i = i + 1;
        }
        let ghost old_names = self.names();
        let ghost old_held = self.held@;
        assert forall|a: int, b: int| 0 <= a < b < kept@.len() implies kept@[a]@ != kept@[b]@ by {
            assert(from[a] < from[b]);
        }
        self.held = kept;
        assert forall|n: Seq<char>| #[trigger] self.names().contains(n) == old_names.remove(name@).contains(n) by {
            if self.names().contains(n) {
                let j = choose|j: int| 0 <= j < self.held@.len() && self.held@[j]@ == n;
                assert(old_held[from[j]]@ == n);
                assert(old_names.contains(n));
            }
            if old_names.remove(name@).contains(n) {
                let k = choose|k: int| 0 <= k < old_held.len() && old_held[k]@ == n;
                let j = choose|j: int| 0 <= j < from.len() && #[trigger] from[j] == k;
                assert(self.held@[j]@ == n);
                assert(self.names().contains(n));
            }
        }
        assert(self.names() =~= old_names.remove(name@));
    }

    /// The names of the held locks, each once.
    pub fn held_names(&self) -> (v: Vec<String>)
        ensures
            forall|n: Seq<char>| self.names().contains(n) <==> exists|i: int| 0 <= i < v@.len() && #[trigger] v@[i]@ == n,
            forall|a: int, b: int| 0 <= a < b < v@.len() ==> v@[a]@ != v@[b]@,
    {
        proof {
            use_type_invariant(self);
        }
        let mut v: Vec<String> = Vec::new();
        let mut i: usize = 0;
        while i < self.held.len()
            invariant
                i <= self.held@.len(),
                v@.len() == i,
                forall|j: int| 0 <= j < i ==> v@[j]@ == self.held@[j]@,
            decreases self.held@.len() - i,
        {
            v.push(self.held[i].clone());
            i = i + 1;
        }
        assert forall|n: Seq<char>| self.names().contains(n) <==> exists|i: int| 0 <= i < v@.len() && #[trigger] v@[i]@ == n by {
            if self.names().contains(n) {
                let k = choose|k: int| 0 <= k < self.held@.len() && self.held@[k]@ == n;
                assert(v@[k]@ == n);
            }
            if exists|i: int| 0 <= i < v@.len() && #[trigger] v@[i]@ == n {
                let k = choose|k: int| 0 <= k < v@.len() && #[trigger] v@[k]@ == n;
                assert(self.held@[k]@ == n);
            }
        }
        v
    }
}

} // verus!
