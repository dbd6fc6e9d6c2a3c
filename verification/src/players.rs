//! The set of players that the server log shows as connected.

use vstd::prelude::*;

verus! {

/// Player names, each held once.
pub struct PlayerSet {
    names: Vec<String>,
}

impl PlayerSet {
    /// The names in the set.
    pub closed spec fn view(&self) -> Set<Seq<char>> {
        Set::new(|p: Seq<char>| exists|i: int| 0 <= i < self.names@.len() && self.names@[i]@ == p)
    }

    /// No name is held twice.
    pub closed spec fn wf(&self) -> bool {
        forall|i: int, j: int|
            0 <= i < j < self.names@.len() ==> self.names@[i]@ != self.names@[j]@
    }

    /// The empty set.
    pub fn new() -> (res: PlayerSet)
        ensures
            res.wf(),
            res.view() == Set::<Seq<char>>::empty(),
    {
        let res = PlayerSet { names: Vec::new() };
        assert(res.view() =~= Set::<Seq<char>>::empty());
        res
    }

    /// Where `name` is held, if it is.
    fn position(&self, name: &String) -> (res: Option<usize>)
        ensures
            match res {
                Some(i) => i < self.names@.len() && self.names@[i as int]@ == name@,
                None => !self.view().contains(name@),
            },
    {
        let mut i: usize = 0;
        while i < self.names.len()
            invariant
                i <= self.names@.len(),
                forall|j: int| 0 <= j < i ==> self.names@[j]@ != name@,
            decreases self.names.len() - i,
        {
            if self.names[i] == *name {
                return Some(i);
            }
            i = i + 1;
        }
        None
    }

    /// Whether `name` is in the set.
    pub fn contains(&self, name: &String) -> (res: bool)
        ensures
            res == self.view().contains(name@),
    {
        match self.position(name) {
            Some(_) => true,
            None => false,
        }
    }

    /// Adds `name`; a name already held stays held once.
    pub fn insert(&mut self, name: String)
        requires
            old(self).wf(),
        ensures
            final(self).wf(),
            final(self).view() == old(self).view().insert(name@),
    {
        let ghost p = name@;
        match self.position(&name) {
            Some(i) => {
                assert(self.view().contains(p));
                assert(self.view() =~= self.view().insert(p));
            },
            None => {
                let ghost before = self.names@;
                self.names.push(name);
                assert forall|x: Seq<char>| self.view().contains(x) <==> old(self).view().insert(
                    p,
                ).contains(x) by {
                    if old(self).view().contains(x) {
                        let i = choose|i: int| 0 <= i < before.len() && before[i]@ == x;
                        assert(self.names@[i]@ == x);
                    }
                    if x == p {
                        assert(self.names@[before.len() as int]@ == x);
                    }
                    if self.view().contains(x) {
                        let i = choose|i: int| 0 <= i < self.names@.len() && self.names@[i]@ == x;
                        if i < before.len() {
                            assert(old(self).view().contains(x));
                        }
                    }
                }
                assert(self.view() =~= old(self).view().insert(p));
            },
        }
    }

    /// Takes `name` out; a name not held leaves the set as it was.
    pub fn remove(&mut self, name: &String)
        requires
            old(self).wf(),
        ensures
            final(self).wf(),
            final(self).view() == old(self).view().remove(name@),
    {
        let ghost p = name@;
        match self.position(name) {
            Some(i) => {
                let ghost before = self.names@;
                self.names.remove(i);
                assert forall|x: Seq<char>| self.view().contains(x) <==> old(self).view().remove(
                    p,
                ).contains(x) by {
                    if self.view().contains(x) {
                        let j = choose|j: int| 0 <= j < self.names@.len() && self.names@[j]@ == x;
                        if j < i {
                            assert(before[j]@ == x);
                        } else {
                            assert(before[j + 1]@ == x);
                        }
                    }
                    if old(self).view().remove(p).contains(x) {
                        let j = choose|j: int| 0 <= j < before.len() && before[j]@ == x;
                        if j < i {
                            assert(self.names@[j]@ == x);
                        } else {
                            assert(j != i);
                            assert(self.names@[j - 1]@ == x);
                        }
                    }
                }
                assert(self.view() =~= old(self).view().remove(p));
            },
            None => {
                assert(self.view() =~= self.view().remove(p));
            },
        }
    }
}

} // verus!
