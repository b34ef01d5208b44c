//! Tag sets attached to structures and placed containers.
use vstd::prelude::*;
use crate::structure::strings_view;

verus! {

/// The tags of a structure or container.
pub struct Tags(pub Vec<String>);

impl View for Tags {
    type V = Seq<Seq<char>>;

    open spec fn view(&self) -> Seq<Seq<char>> {
        strings_view(self.0@)
    }
}

impl Tags {
    pub fn contains(&self, tag: &str) -> (r: bool)
        ensures
            r == self@.contains(tag@),
    {
        let wanted = String::from_str(tag);
        let mut i: usize = 0;
        while i < self.0.len()
            invariant
                wanted@ == tag@,
                i <= self.0@.len(),
                forall|k: int| 0 <= k < i ==> self.0@[k]@ != tag@,
            decreases self.0@.len() - i,
        {
            if self.0[i] == wanted {
                assert(self@[i as int] == tag@);
                return true;
            }
            i += 1;
        }
        assert forall|k: int| 0 <= k < self@.len() implies self@[k] != tag@ by {
            assert(self@[k] == self.0@[k]@);
        }
        false
    }

    pub fn len(&self) -> (r: usize)
        ensures
            r == self@.len(),
    {
        self.0.len()
    }

    /// Whether any of these tags is among `wanted`.
    pub fn any_of(&self, wanted: &Vec<String>) -> (r: bool)
        ensures
            r == exists|i: int| 0 <= i < self@.len() && strings_view(wanted@).contains(#[trigger] self@[i]),
    {
        let mut i: usize = 0;
        while i < self.0.len()
            invariant
                i <= self.0@.len(),
                forall|k: int| 0 <= k < i ==> !strings_view(wanted@).contains(#[trigger] self@[k]),
            decreases self.0@.len() - i,
        {
            let mut j: usize = 0;
            while j < wanted.len()
                invariant
                    i < self.0@.len(),
                    j <= wanted@.len(),
                    forall|k: int| 0 <= k < j ==> wanted@[k]@ != self.0@[i as int]@,
                decreases wanted@.len() - j,
            {
                if wanted[j] == self.0[i] {
                    assert(strings_view(wanted@)[j as int] == self@[i as int]);
                    return true;
                }
                j += 1;
            }
            assert(!strings_view(wanted@).contains(self@[i as int])) by {
                if strings_view(wanted@).contains(self@[i as int]) {
                    let k = choose|k: int| 0 <= k < wanted@.len() && strings_view(wanted@)[k] == self@[i as int];
                    assert(wanted@[k]@ == self.0@[i as int]@);
                }
            }
            i += 1;
        }
        false
    }
}

} // verus!
