//! The scope table: the flat registry of the function names declared so far.

use vstd::prelude::*;

verus! {

/// The set of declared function names of one pass.
///
/// A name is registered when a named function literal is rendered and is
/// looked up before a call is emitted. The table never forgets a name.
pub struct Env {
    names: Vec<String>,
}

impl View for Env {
    type V = Set<Seq<char>>;

    /// The names that the table holds.
    closed spec fn view(&self) -> Set<Seq<char>> {
        Set::new(
            |name: Seq<char>|
                exists|i: int| 0 <= i < self.names@.len() && self.names@[i]@ == name,
        )
    }
}

impl Env {
    /// Creates an empty table.
    pub fn new() -> (env: Env)
        ensures
            env@ == Set::<Seq<char>>::empty(),
    {
        let env = Env { names: Vec::new() };
        assert(env@ =~= Set::<Seq<char>>::empty());
        env
    }

    /// Tells whether `name` has been registered.
    pub fn has(&self, name: &String) -> (found: bool)
        ensures
            found == self@.contains(name@),
    {
        let mut i: usize = 0;
        while i < self.names.len()
            invariant
                i <= self.names@.len(),
                forall|k: int| 0 <= k < i ==> self.names@[k]@ != name@,
            decreases self.names@.len() - i,
        {
            if self.names[i] == *name {
                return true;
            }
            i += 1;
        }
        false
    }

    /// Registers `name`. Registering a name again changes nothing.
    pub fn add(&mut self, name: String)
        ensures
            final(self)@ == old(self)@.insert(name@),
    {
        if !self.has(&name) {
            let ghost before = self.names@;
            self.names.push(name);
            assert forall|n: Seq<char>|
                self@.contains(n) <==> old(self)@.insert(name@).contains(n) by {
                if self@.contains(n) {
                    let i = choose|i: int| 0 <= i < self.names@.len() && self.names@[i]@ == n;
                    if i < before.len() {
                        assert(before[i]@ == n);
                    }
                }
                if old(self)@.contains(n) {
                    let i = choose|i: int| 0 <= i < before.len() && before[i]@ == n;
                    assert(self.names@[i]@ == n);
                }
                if n == name@ {
                    assert(self.names@[before.len() as int]@ == n);
                }
            }
            assert(self@ =~= old(self)@.insert(name@));
        } else {
            assert(self@ =~= old(self)@.insert(name@));
        }
    }
}

} // verus!
