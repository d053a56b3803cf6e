//! The debugger's symbol table: addresses with names, looked up both ways.
//! Loading and saving the table live with the host; the table itself and
//! its lookups are core logic.

use vstd::prelude::*;

verus! {

/// A symbol table: entries of address and name, with each address at most
/// once.
pub struct Symbols {
    pub symbol_map: Vec<(u16, String)>,
}

impl Symbols {
    /// The entries, as address/name pairs in insertion order.
    pub closed spec fn view(&self) -> Seq<(u16, Seq<char>)> {
        Seq::new(self.symbol_map@.len(), |i: int| (self.symbol_map@[i].0, self.symbol_map@[i].1@))
    }

    /// No address occurs twice.
    pub open spec fn wf(&self) -> bool {
        forall|i: int, j: int|
            0 <= i < j < self@.len() ==> (#[trigger] self@[i]).0 != (#[trigger] self@[j]).0
    }

    /// Whether some entry carries `addr`.
    pub open spec fn has_addr(&self, addr: u16) -> bool {
        exists|i: int| 0 <= i < self@.len() && (#[trigger] self@[i]).0 == addr
    }

    /// An empty table.
    pub fn new() -> (r: Self)
        ensures
            r@.len() == 0,
            r.wf(),
    {
        Symbols { symbol_map: Vec::new() }
    }

    /// The name at `addr`, when the table holds one.
    pub fn get(&self, addr: u16) -> (r: Option<&str>)
        ensures
            r is Some <==> self.has_addr(addr),
            (r matches Some(s) ==> exists|i: int|
                0 <= i < self@.len() && (#[trigger] self@[i]).0 == addr && self@[i].1 == s@),
    {
        let mut i: usize = 0;
        while i < self.symbol_map.len()
            invariant
                i <= self@.len(),
                self@.len() == self.symbol_map@.len(),
                forall|j: int| 0 <= j < i ==> (#[trigger] self@[j]).0 != addr,
            decreases self@.len() - i,
        {
            if self.symbol_map[i].0 == addr {
                let r = self.symbol_map[i].1.as_str();
                proof {
                    assert(self@[i as int].0 == addr && self@[i as int].1 == r@);
                }
                return Some(r);
            }
            i = i + 1;
        }
        None
    }

    /// The address carrying `symbol`, when the table holds one.
    pub fn reverse_get(&self, symbol: &String) -> (r: Option<u16>)
        ensures
            (r matches Some(a) ==> exists|i: int|
                0 <= i < self@.len() && (#[trigger] self@[i]).1 == symbol@ && self@[i].0 == a),
            (r is None ==> forall|i: int| 0 <= i < self@.len() ==> (#[trigger] self@[i]).1
                != symbol@),
    {
        let mut i: usize = 0;
        while i < self.symbol_map.len()
            invariant
                i <= self@.len(),
                self@.len() == self.symbol_map@.len(),
                forall|j: int| 0 <= j < i ==> (#[trigger] self@[j]).1 != symbol@,
            decreases self@.len() - i,
        {
            if self.symbol_map[i].1 == *symbol {
                proof {
                    assert(self@[i as int].1 == symbol@);
                }
                return Some(self.symbol_map[i].0);
            }
            proof {
                assert(self@[i as int].1 == self.symbol_map@[i as int].1@);
            }
            i = i + 1;
        }
        None
    }

    /// Adds a name for an address the table does not hold yet.
    pub fn insert(&mut self, addr: u16, symbol: String)
        requires
            old(self).wf(),
            !old(self).has_addr(addr),
        ensures
            final(self).wf(),
            final(self)@ == old(self)@.push((addr, symbol@)),
    {
        self.symbol_map.push((addr, symbol));
        proof {
            assert(self@ =~= old(self)@.push((addr, symbol@)));
        }
    }

    /// Drops the entry at `addr`, if any.
    pub fn remove(&mut self, addr: u16)
        requires
            old(self).wf(),
        ensures
            final(self).wf(),
            !final(self).has_addr(addr),
            old(self).has_addr(addr) ==> exists|i: int|
                0 <= i < old(self)@.len() && (#[trigger] old(self)@[i]).0 == addr && final(self)@
                    == old(self)@.remove(i),
            !old(self).has_addr(addr) ==> final(self)@ == old(self)@,
    {
        let mut i: usize = 0;
        while i < self.symbol_map.len()
            invariant
                self.wf(),
                i <= self@.len(),
                self@.len() == self.symbol_map@.len(),
                *self == *old(self),
                forall|j: int| 0 <= j < i ==> (#[trigger] self@[j]).0 != addr,
            decreases self@.len() - i,
        {
            if self.symbol_map[i].0 == addr {
                proof {
                    assert(self@[i as int].0 == addr);
                }
                self.symbol_map.remove(i);
                proof {
                    assert(self@ =~= old(self)@.remove(i as int));
                    assert forall|j: int| 0 <= j < self@.len() implies (#[trigger] self@[j]).0
                        != addr by {
                        if j < i {
                            assert(self@[j] == old(self)@[j]);
                        } else {
                            assert(self@[j] == old(self)@[j + 1]);
                        }
                    }
                }
                return ;
            }
            i = i + 1;
        }
    }
}

impl Default for Symbols {
    /// An empty table.
    fn default() -> (r: Self)
        ensures
            r@.len() == 0,
            r.wf(),
    {
        Symbols { symbol_map: Vec::new() }
    }
}

} // verus!
