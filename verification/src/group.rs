//! Named groups of materials, as a palette of a front end shows them.

use vstd::prelude::*;
use crate::variant::Variant;

verus! {

/// Materials under one name.
pub struct VariantGroup {
    pub group_name: String,
    pub elements: Vec<Variant>,
}

/// The groups in the order in which they were registered.
pub struct ElementManager {
    pub groups: Vec<VariantGroup>,
}

/// The elements of the first group of the given name; of none, nothing.
pub open spec fn first_named(groups: Seq<VariantGroup>, name: Seq<char>) -> Seq<Variant>
    decreases groups.len(),
{
    if groups.len() == 0 {
        Seq::empty()
    } else if groups[0].group_name@ == name {
        groups[0].elements@
    } else {
        first_named(groups.drop_first(), name)
    }
}

fn copy_elements(elements: &Vec<Variant>) -> (copy: Vec<Variant>)
    ensures
        copy@ == elements@,
{
    let mut copy: Vec<Variant> = Vec::new();
    let mut i: usize = 0;
    while i < elements.len()
        invariant
            0 <= i <= elements@.len(),
            copy@ == elements@.take(i as int),
        decreases elements@.len() - i,
    {
        copy.push(elements[i]);
        assert(elements@.take(i + 1) =~= elements@.take(i as int).push(elements@[i as int]));
        i = i + 1;
    }
    assert(elements@.take(elements@.len() as int) =~= elements@);
    copy
}

impl VariantGroup {
    /// A copy of the materials of the group.
    pub fn get_elements(&self) -> (elements: Vec<Variant>)
        ensures
            elements@ == self.elements@,
    {
        copy_elements(&self.elements)
    }
}

impl ElementManager {
    /// A manager without groups.
    pub fn new() -> (manager: ElementManager)
        ensures
            manager.groups@.len() == 0,
    {
        ElementManager { groups: Vec::new() }
    }

    /// Adds a group behind those that are there; a name may occur twice.
    pub fn register_group(&mut self, group_name: &str, elements: Vec<Variant>)
        ensures
            final(self).groups@.len() == old(self).groups@.len() + 1,
            final(self).groups@.drop_last() == old(self).groups@,
            final(self).groups@.last().group_name@ == group_name@,
            final(self).groups@.last().elements@ == elements@,
    {
        self.groups.push(VariantGroup { group_name: group_name.to_owned(), elements });
        assert(self.groups@.drop_last() =~= old(self).groups@);
    }

    /// The elements of the first group registered under a name.
    pub fn get_group(&self, group_name: &str) -> (elements: Vec<Variant>)
        ensures
            elements@ == first_named(self.groups@, group_name@),
    {
        let wanted = group_name.to_owned();
        let mut i: usize = 0;
        assert(self.groups@.skip(0) =~= self.groups@);
        while i < self.groups.len()
            invariant
                0 <= i <= self.groups@.len(),
                wanted@ == group_name@,
                first_named(self.groups@, group_name@) == first_named(
                    self.groups@.skip(i as int),
                    group_name@,
                ),
            decreases self.groups@.len() - i,
        {
            let rest = Ghost(self.groups@.skip(i as int));
            assert(rest@[0] == self.groups@[i as int]);
            assert(rest@.drop_first() =~= self.groups@.skip(i + 1));
            if self.groups[i].group_name == wanted {
                return self.groups[i].get_elements();
            }
            i = i + 1;
        }
        assert(self.groups@.skip(self.groups@.len() as int) =~= Seq::empty());
        Vec::new()
    }

    /// The names of all groups, in the order of registration.
    pub fn get_group_names(&self) -> (names: Vec<String>)
        ensures
            names@.len() == self.groups@.len(),
            forall|i: int|
                0 <= i < names@.len() ==> (#[trigger] names@[i])@ == self.groups@[i].group_name@,
    {
        let mut names: Vec<String> = Vec::new();
        let mut i: usize = 0;
        while i < self.groups.len()
            invariant
                0 <= i <= self.groups@.len(),
                names@.len() == i,
                forall|k: int|
                    0 <= k < i ==> (#[trigger] names@[k])@ == self.groups@[k].group_name@,
            decreases self.groups@.len() - i,
        {
            names.push(self.groups[i].group_name.clone());
            i = i + 1;
        }
        names
    }
}

} // verus!
