//! The usage counter: how often each command has been run.
use vstd::prelude::*;
use crate::text::str_eq;
use vstd::string::*;

verus! {

/// Counts the runs of each command, by the command's name. A name that was
/// never counted stands at zero. No name is held twice.
pub struct CommandCounter {
    names: Vec<String>,
    runs: Vec<u64>,
}

impl View for CommandCounter {
    type V = Map<Seq<char>, u64>;

    /// The names counted so far, each with its number of runs.
    closed spec fn view(&self) -> Map<Seq<char>, u64> {
        Map::new(
            |name: Seq<char>| self.position(name) is Some,
            |name: Seq<char>| self.runs[self.position(name).unwrap()],
        )
    }
}

impl CommandCounter {
    #[verifier::type_invariant]
    spec fn wf(&self) -> bool {
        &&& self.names.len() == self.runs.len()
        &&& forall|i: int, j: int|
            0 <= i < j < self.names.len() ==> self.names[i]@ != self.names[j]@
    }

    /// Where `name` is held, if it is.
    spec fn position(&self, name: Seq<char>) -> Option<int> {
        if exists|i: int| 0 <= i < self.names.len() && self.names[i]@ == name {
            Some(choose|i: int| 0 <= i < self.names.len() && self.names[i]@ == name)
        } else {
            None
        }
    }

    /// How often `name` has been counted.
    pub open spec fn count(&self, name: Seq<char>) -> nat {
        if self@.dom().contains(name) {
            self@[name] as nat
        } else {
            0
        }
    }

    /// A counter that has counted nothing.
    pub fn new() -> (counter: Self)
        ensures
            counter@ == Map::<Seq<char>, u64>::empty(),
    {
        CommandCounter { names: Vec::new(), runs: Vec::new() }
    }

    fn find(&self, name: &str) -> (at: Option<usize>)
        ensures
            match at {
                Some(i) => i < self.names.len() && self.names[i as int]@ == name@
                    && self.position(name@) == Some(i as int),
                None => self.position(name@) is None,
            },
    {
        proof {
            use_type_invariant(self);
        }
        let mut i: usize = 0;
        while i < self.names.len()
            invariant
                self.wf(),
                i <= self.names.len(),
                forall|j: int| 0 <= j < i ==> self.names[j]@ != name@,
            decreases self.names.len() - i,
        {
            if str_eq(self.names[i].as_str(), name) {
                proof {
                    // No name is held twice, so the place chosen is this one.
                    let held = self.position(name@).unwrap();
                    assert(self.names[held]@ == name@);
                    assert(held == i);
                }
                return Some(i);
            }
            i += 1;
        }
        None
    }

    /// How often `name` has been counted.
    pub fn get(&self, name: &str) -> (n: u64)
        ensures
            n == self.count(name@),
    {
        proof {
            use_type_invariant(self);
        }
        match self.find(name) {
            Some(i) => self.runs[i],
            None => 0,
        }
    }

    /// Whether `name` can be counted once more.
    pub fn can_count(&self, name: &str) -> (ok: bool)
        ensures
            ok == (self.count(name@) < u64::MAX),
    {
        self.get(name) < u64::MAX
    }

    /// Counts one more run of `name`: a name not yet held enters at zero and
    /// is then raised, like any other, by one. No other name changes.
    pub fn increment(&mut self, name: &str)
        requires
            old(self).count(name@) < u64::MAX,
        ensures
            final(self)@ == old(self)@.insert(name@, (old(self).count(name@) + 1) as u64),
            final(self).count(name@) == old(self).count(name@) + 1,
    {
        proof {
            use_type_invariant(&*self);
        }
        let ghost before = *self;
        let at = self.find(name);
        let mut taken = CommandCounter::new();
        core::mem::swap(self, &mut taken);
        let CommandCounter { mut names, mut runs } = taken;
        match at {
            Some(i) => {
                let n = runs[i];
                runs.set(i, n + 1);
                *self = CommandCounter { names, runs };
                proof {
                    assert forall|other: Seq<char>| self.position(other) == before.position(other) by {}
                }
            },
            None => {
                names.push(String::from_str(name));
                runs.push(1);
                *self = CommandCounter { names, runs };
                proof {
                    let last = before.names.len() as int;
                    assert(self.names[last]@ == name@);
                    assert forall|other: Seq<char>| other != name@ implies self.position(other)
                        == before.position(other) by {
                        if before.position(other) is Some {
                            let held = before.position(other).unwrap();
                            assert(self.names[held]@ == other);
                        }
                        if self.position(other) is Some {
                            let held = self.position(other).unwrap();
                            assert(before.names[held]@ == other);
                        }
                    }
                }
            },
        }
    }
}

} // verus!
