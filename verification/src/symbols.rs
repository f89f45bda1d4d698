//! The symbol table: labels and the instruction slots that they name.

use crate::text::{same, to_chars};
use vstd::prelude::*;

verus! {

/// One label and the slot that it was bound to.
pub struct Symbol {
    pub(crate) name: Vec<char>,
    pub(crate) slot: usize,
}

/// The labels of a program, each with the number of the instruction slot
/// that follows it. A label that is bound again takes the later slot.
pub struct SymbolTable {
    pub(crate) symbols: Vec<Symbol>,
}

/// The map that a run of bindings leaves: each later binding of a name
/// replaces the earlier ones.
pub closed spec fn bound(symbols: Seq<Symbol>) -> Map<Seq<char>, usize>
    decreases symbols.len(),
{
    if symbols.len() == 0 {
        Map::empty()
    } else {
        bound(symbols.drop_last()).insert(symbols.last().name@, symbols.last().slot)
    }
}

impl View for SymbolTable {
    type V = Map<Seq<char>, usize>;

    closed spec fn view(&self) -> Map<Seq<char>, usize> {
        bound(self.symbols@)
    }
}

impl SymbolTable {
    /// A table without labels.
    pub fn new() -> (table: SymbolTable)
        ensures
            table@ == Map::<Seq<char>, usize>::empty(),
    {
        SymbolTable { symbols: Vec::new() }
    }

    /// Binds the label written in `name` to `slot`.
    pub(crate) fn bind(&mut self, name: &[char], slot: usize)
        ensures
            final(self)@ == old(self)@.insert(name@, slot),
    {
        let mut owned: Vec<char> = Vec::new();
        let mut i: usize = 0;
        while i < name.len()
            invariant
                i <= name.len(),
                owned@ == name@.take(i as int),
            decreases name.len() - i,
        {
            owned.push(name[i]);
            i = i + 1;
        }
        assert(name@.take(name.len() as int) =~= name@);
        let ghost before = self.symbols@;
        self.symbols.push(Symbol { name: owned, slot });
        assert(self.symbols@.drop_last() =~= before);
    }

    /// The slot that the label written in `name` is bound to.
    pub(crate) fn find(&self, name: &[char]) -> (r: Option<usize>)
        ensures
            r == if self@.dom().contains(name@) {
                Some(self@[name@])
            } else {
                None
            },
    {
        let mut i: usize = self.symbols.len();
        assert(self.symbols@.take(i as int) =~= self.symbols@);
        while i > 0
            invariant
                i <= self.symbols.len(),
                self@.dom().contains(name@) == bound(self.symbols@.take(i as int)).dom().contains(
                    name@,
                ),
                self@.dom().contains(name@) ==> self@[name@] == bound(
                    self.symbols@.take(i as int),
                )[name@],
            decreases i,
        {
            assert(self.symbols@.take(i as int).drop_last() =~= self.symbols@.take(i - 1));
            let symbol = &self.symbols[i - 1];
            if same(symbol.name.as_slice(), name) {
                return Some(symbol.slot);
            }
            i = i - 1;
        }
        None
    }

    /// Binds the label `name` to `slot`. An earlier binding of the same
    /// label is replaced.
    pub fn insert(&mut self, name: &str, slot: usize)
        ensures
            final(self)@ == old(self)@.insert(name@, slot),
    {
        let chars = to_chars(name);
        self.bind(chars.as_slice(), slot);
    }

    /// The slot that the label `name` is bound to, if it is bound.
    pub fn get(&self, name: &str) -> (r: Option<usize>)
        ensures
            r == if self@.dom().contains(name@) {
                Some(self@[name@])
            } else {
                None
            },
    {
        let chars = to_chars(name);
        self.find(chars.as_slice())
    }
}

} // verus!
