//! The registry of encoder implementations, by codec family.

use vstd::prelude::*;
use vstd::hash_map::StringHashMap;
use crate::encoder::Descriptor;

verus! {

/// The descriptors registered under `family`, oldest first; none if the
/// family is not listed.
pub open spec fn members<D: ?Sized>(
    families: Map<Seq<char>, Seq<&'static D>>,
    family: Seq<char>,
) -> Seq<&'static D> {
    if families.contains_key(family) {
        families[family]
    } else {
        Seq::empty()
    }
}

/// The registry after `desc` has been registered under `family`: it comes
/// last in its family, and nothing else changes.
pub open spec fn appended<D: ?Sized>(
    families: Map<Seq<char>, Seq<&'static D>>,
    family: Seq<char>,
    desc: &'static D,
) -> Map<Seq<char>, Seq<&'static D>> {
    families.insert(family, members(families, family).push(desc))
}

/// The descriptor that a lookup of `family` yields: the oldest one.
pub open spec fn first_registered<D: ?Sized>(
    families: Map<Seq<char>, Seq<&'static D>>,
    family: Seq<char>,
) -> Option<&'static D> {
    if members(families, family).len() > 0 {
        Some(members(families, family)[0])
    } else {
        None
    }
}

/// No family is listed without a descriptor.
pub open spec fn populated<D: ?Sized>(families: Map<Seq<char>, Seq<&'static D>>) -> bool {
    forall|family: Seq<char>| #[trigger]
        families.contains_key(family) ==> families[family].len() > 0
}

/// `family` is a name that `desc` may give as its own: the one it commits
/// to, or any name where it commits to none.
pub open spec fn may_file_under<D: Descriptor + ?Sized>(desc: &D, family: Seq<char>) -> bool {
    desc.family() matches Some(declared) ==> family == declared
}

/// The registry that a run of registrations builds, starting from nothing.
/// Each entry of `log` is a family and the descriptor registered under it.
pub open spec fn registry_of<D: ?Sized>(log: Seq<(Seq<char>, &'static D)>) -> Map<
    Seq<char>,
    Seq<&'static D>,
>
    decreases log.len(),
{
    if log.len() == 0 {
        Map::empty()
    } else {
        appended(registry_of(log.drop_last()), log.last().0, log.last().1)
    }
}

/// Entry `i` of `log` is the first one registered under `family`.
pub open spec fn first_under<D: ?Sized>(
    log: Seq<(Seq<char>, &'static D)>,
    family: Seq<char>,
    i: int,
) -> bool {
    &&& 0 <= i < log.len()
    &&& log[i].0 == family
    &&& forall|j: int| 0 <= j < i ==> (#[trigger] log[j]).0 != family
}

/// One registration: every family that had a first descriptor keeps it, a
/// family that had none gets `desc` as its first, and no family is left
/// without a descriptor.
pub proof fn law_first_stays_first<D: ?Sized>(
    families: Map<Seq<char>, Seq<&'static D>>,
    family: Seq<char>,
    desc: &'static D,
    other: Seq<char>,
)
    requires
        populated(families),
    ensures
        populated(appended(families, family, desc)),
        first_registered(appended(families, family, desc), other) == if other == family
            && !families.contains_key(family) {
            Some(desc)
        } else {
            first_registered(families, other)
        },
{
    let after = appended(families, family, desc);
    assert forall|name: Seq<char>| #[trigger] after.contains_key(name) implies after[name].len()
        > 0 by {
        if name != family {
            assert(families.contains_key(name));
        }
    }
    if other == family && families.contains_key(family) {
        assert(families[family].len() > 0);
    }
}

/// Any run of registrations: a lookup yields the descriptor that was
/// registered first under the name, however many followed it, and nothing
/// for a name under which none was registered.
pub proof fn law_lookup_yields_first<D: ?Sized>(
    log: Seq<(Seq<char>, &'static D)>,
    family: Seq<char>,
)
    ensures
        populated(registry_of(log)),
        forall|i: int| #[trigger]
            first_under(log, family, i) ==> first_registered(registry_of(log), family) == Some(
                log[i].1,
            ),
        (forall|i: int| 0 <= i < log.len() ==> (#[trigger] log[i]).0 != family)
            ==> first_registered(registry_of(log), family) is None,
    decreases log.len(),
{
    if log.len() > 0 {
        let earlier = log.drop_last();
        let last = log.last();
        law_lookup_yields_first(earlier, family);
        law_first_stays_first(registry_of(earlier), last.0, last.1, family);
        assert forall|i: int| #[trigger] first_under(log, family, i) implies first_registered(
            registry_of(log),
            family,
        ) == Some(log[i].1) by {
            if i < log.len() - 1 {
                assert(forall|j: int| 0 <= j < i ==> earlier[j] == log[j]);
                assert(earlier[i] == log[i]);
                assert(first_under(earlier, family, i));
            } else {
                assert forall|j: int| 0 <= j < earlier.len() implies (#[trigger] earlier[j]).0
                    != family by {
                    assert(earlier[j] == log[j]);
                }
            }
        }
        if forall|i: int| 0 <= i < log.len() ==> (#[trigger] log[i]).0 != family {
            assert forall|j: int| 0 <= j < earlier.len() implies (#[trigger] earlier[j]).0
                != family by {
                assert(earlier[j] == log[j]);
            }
            assert(log[log.len() - 1].0 != family);
        }
    }
}

/// The table of registered encoder implementations.
///
/// Its view maps each family that has a registration to the descriptors
/// registered under it, oldest first.
///
/// A hash map leads from the family's name to a slot, and the descriptors
/// of the family stand in that slot: the map is only ever read and added
/// to, and a descriptor is appended to its slot in place.
pub struct Codecs<D: ?Sized + 'static> {
    /// For each family, the slot of `slots` that holds its descriptors.
    index: StringHashMap<usize>,
    /// The descriptors of one family each, oldest first.
    slots: Vec<Vec<&'static D>>,
}

impl<D: ?Sized> View for Codecs<D> {
    type V = Map<Seq<char>, Seq<&'static D>>;

    closed spec fn view(&self) -> Map<Seq<char>, Seq<&'static D>> {
        Map::new(
            |family: Seq<char>| self.index@.contains_key(family),
            |family: Seq<char>| self.slots@[self.index@[family] as int]@,
        )
    }
}

impl<D: ?Sized + 'static> Codecs<D> {
    /// Every family has a slot of its own, and no slot is empty.
    #[verifier::type_invariant]
    spec fn well_formed(&self) -> bool {
        &&& forall|family: Seq<char>| #[trigger]
            self.index@.contains_key(family) ==> self.index@[family] < self.slots@.len()
        &&& forall|a: Seq<char>, b: Seq<char>|
            self.index@.contains_key(a) && self.index@.contains_key(b) && #[trigger] self.index@[a]
                == #[trigger] self.index@[b] ==> a == b
        &&& forall|i: int| 0 <= i < self.slots@.len() ==> (#[trigger] self.slots@[i])@.len() > 0
    }

    /// A registry with nothing registered.
    pub fn new() -> (codecs: Self)
        ensures
            codecs@ == Map::<Seq<char>, Seq<&'static D>>::empty(),
            populated(codecs@),
    {
        Codecs { index: StringHashMap::new(), slots: Vec::new() }
    }

    /// Looks up the implementation registered first under `name`.
    pub fn by_name(&self, name: &str) -> (found: Option<&'static D>)
        ensures
            found == first_registered(self@, name@),
            populated(self@),
    {
        proof {
            use_type_invariant(self);
        }
        match self.index.get(name) {
            Some(slot) => Some(self.slots[*slot][0]),
            None => None,
        }
    }

    /// Registers `desc` under `family`, behind whatever is registered there.
    pub fn append_to(&mut self, family: &str, desc: &'static D)
        ensures
            final(self)@ == appended(old(self)@, family@, desc),
            populated(final(self)@),
    {
        // The parts are taken out, changed and put back as a whole, so that
        // the registry is well formed whenever it can be seen.
        let mut taken = Codecs::new();
        core::mem::swap(self, &mut taken);
        proof {
            use_type_invariant(&taken);
        }
        let ghost before = taken@;
        let Codecs { mut index, mut slots } = taken;
        let ghost index_before = index@;
        match index.get(family) {
            Some(slot) => {
                let slot = *slot;
                slots[slot].push(desc);
            },
            None => {
                let slot = slots.len();
                let mut members = Vec::new();
                members.push(desc);
                slots.push(members);
                index.insert(family.to_owned(), slot);
            },
        }
        let updated = Codecs { index, slots };
        proof {
            let after = appended(before, family@, desc);
            assert forall|name: Seq<char>| #[trigger]
                after.contains_key(name) implies updated@.contains_key(name) && updated@[name]
                == after[name] by {
                if name != family@ {
                    assert(index_before.contains_key(name));
                }
            }
            assert(updated@ =~= after);
        }
        *self = updated;
    }
}

impl<D: Descriptor + ?Sized> Codecs<D> {
    /// Registers `desc` under the family that it describes itself with,
    /// behind whatever is registered there.
    pub fn append(&mut self, desc: &'static D)
        ensures
            exists|family: Seq<char>|
                may_file_under(desc, family) && final(self)@ == #[trigger] appended(
                    old(self)@,
                    family,
                    desc,
                ),
            desc.family() matches Some(family) ==> final(self)@ == appended(
                old(self)@,
                family,
                desc,
            ),
            populated(final(self)@),
    {
        let codec_name = desc.describe().codec;
        self.append_to(codec_name, desc);
    }
}

} // verus!
