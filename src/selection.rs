use vstd::prelude::*;
use crate::kana::CATEGORY_COUNT;

verus! {

/// Which of the ten categories a quiz draws from, one flag per category position.
pub struct CategorySelection {
    pub flags: [bool; 10],
}

impl View for CategorySelection {
    type V = Seq<bool>;

    open spec fn view(&self) -> Seq<bool> {
        self.flags@
    }
}

/// The selection a new quiz starts with: only the first category is enabled.
pub open spec fn default_selection() -> Seq<bool> {
    seq![true, false, false, false, false, false, false, false, false, false]
}

impl CategorySelection {
    pub fn new() -> (r: CategorySelection)
        ensures
            r@ == default_selection(),
    {
        let r = CategorySelection {
            flags: [true, false, false, false, false, false, false, false, false, false],
        };
        assert(r@ =~= default_selection());
        r
    }

    pub fn is_enabled(&self, index: usize) -> (r: bool)
        requires
            index < CATEGORY_COUNT,
        ensures
            r == self@[index as int],
    {
        self.flags[index]
    }

    /// Flips the flag at `index`; every other flag is kept.
    pub fn toggle(&mut self, index: usize)
        requires
            index < CATEGORY_COUNT,
        ensures
            final(self)@ == old(self)@.update(index as int, !old(self)@[index as int]),
    {
        let v = !self.flags[index];
        self.flags[index] = v;
        assert(self@ =~= old(self)@.update(index as int, !old(self)@[index as int]));
    }
}

} // verus!
