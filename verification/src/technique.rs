//! Techniques, the scopes they need, and the choice of a part's variant
//! technique.

use crate::command::{Entity, GpuCommand, TagHash, TechniqueHandle};
use rustc_hash::{FxBuildHasher, FxHashSet};
use std::collections::HashMap;
use vstd::prelude::*;

verus! {

/// The hasher of `rustc_hash`, by which its sets find their items.
#[verifier::external_type_specification]
#[verifier::external_body]
pub struct ExFxBuildHasher(FxBuildHasher);

/// The hashes that a set of `rustc_hash` holds.
pub uninterp spec fn tag_set_contents(set: FxHashSet<u32>) -> Set<u32>;

/// Makes an `FxHashSet` of the hashes with `FxHashSet::from_iter`. What is
/// taken on trust: the set holds every hash of the list and nothing else.
#[verifier::external_body]
fn tag_set_from(tags: Vec<u32>) -> (set: FxHashSet<u32>)
    ensures
        tag_set_contents(set) == tags@.to_set(),
{
    FxHashSet::from_iter(tags)
}

/// Hands out the hashes of an `FxHashSet` with `Vec::from_iter`, which walks
/// the set. What is taken on trust: every hash of the set comes out once.
/// Nothing is said of the order in which they come.
#[verifier::external_body]
fn tag_set_items(set: FxHashSet<u32>) -> (tags: Vec<u32>)
    ensures
        tags@.no_duplicates(),
        tags@.to_set() == tag_set_contents(set),
{
    Vec::from_iter(set)
}

/// The handles of a list, each once. The order in which they come is that
/// of the set they pass through, and is not fixed.
pub fn distinct_handles(handles: &Vec<TechniqueHandle>) -> (distinct: Vec<TechniqueHandle>)
    ensures
        distinct@.no_duplicates(),
        forall|handle: TechniqueHandle| distinct@.contains(handle) <==> handles@.contains(handle),
{
    let mut tags: Vec<u32> = Vec::new();
    let mut i: usize = 0;
    while i < handles.len()
        invariant
            i <= handles@.len(),
            tags@.len() == i,
            forall|k: int| 0 <= k < i ==> tags@[k] == handles@[k].0.0,
        decreases handles.len() - i,
    {
        tags.push(handles[i].0.0);
        i += 1;
    }
    let ghost all = tags@;
    let items = tag_set_items(tag_set_from(tags));
    let mut distinct: Vec<TechniqueHandle> = Vec::new();
    let mut k: usize = 0;
    while k < items.len()
        invariant
            k <= items@.len(),
            distinct@.len() == k,
            forall|a: int| 0 <= a < k ==> distinct@[a] == TechniqueHandle(TagHash(items@[a])),
        decreases items.len() - k,
    {
        distinct.push(TechniqueHandle(TagHash(items[k])));
        k += 1;
    }
    proof {
        assert forall|a: int, b: int|
            0 <= a < distinct@.len() && 0 <= b < distinct@.len() && a != b implies distinct@[a]
            != distinct@[b] by {
            assert(items@[a] != items@[b]);
        }
        assert forall|handle: TechniqueHandle| distinct@.contains(handle) <==> handles@.contains(
            handle,
        ) by {
            let tag = handle.0.0;
            if distinct@.contains(handle) {
                let a = choose|a: int| 0 <= a < distinct@.len() && distinct@[a] == handle;
                assert(items@[a] == tag);
                assert(items@.contains(tag));
                assert(items@.to_set().contains(tag));
                assert(all.to_set().contains(tag));
                assert(all.contains(tag));
                let b = choose|b: int| 0 <= b < all.len() && all[b] == tag;
                assert(handles@[b] == handle);
            }
            if handles@.contains(handle) {
                let b = choose|b: int| 0 <= b < handles@.len() && handles@[b] == handle;
                assert(all[b] == tag);
                assert(all.contains(tag));
                assert(all.to_set().contains(tag));
                assert(items@.to_set().contains(tag));
                assert(items@.contains(tag));
                let a = choose|a: int| 0 <= a < items@.len() && items@[a] == tag;
                assert(distinct@[a] == handle);
            }
        }
    }
    distinct
}

/// Bit of the skinning scope in a set of scopes.
pub const SKINNING_SCOPE_BITS: u64 = 0x80;

/// The index that stands for "no variant technique".
pub const NO_VARIANT: u16 = 0xffff;

/// A set of scopes: the groups of constants that a technique needs bound.
#[derive(Clone, Copy, PartialEq, Eq, Structural, Debug)]
pub struct ScopeBits {
    pub bits: u64,
}

impl ScopeBits {
    pub open spec fn spec_union(self, other: ScopeBits) -> ScopeBits {
        ScopeBits { bits: self.bits | other.bits }
    }

    pub open spec fn spec_contains(self, other: ScopeBits) -> bool {
        self.bits & other.bits == other.bits
    }

    /// Whether the skinning scope is in the set.
    pub open spec fn spec_needs_skinning(self) -> bool {
        self.bits & SKINNING_SCOPE_BITS == SKINNING_SCOPE_BITS
    }

    pub fn empty() -> (s: ScopeBits)
        ensures
            s.bits == 0,
            !s.spec_needs_skinning(),
    {
        proof {
            assert(0u64 & SKINNING_SCOPE_BITS != SKINNING_SCOPE_BITS) by (bit_vector);
        }
        ScopeBits { bits: 0 }
    }

    /// The set that holds the skinning scope and no other.
    pub fn skinning() -> (s: ScopeBits)
        ensures
            s.bits == SKINNING_SCOPE_BITS,
            s.spec_needs_skinning(),
    {
        proof {
            assert(SKINNING_SCOPE_BITS & SKINNING_SCOPE_BITS == SKINNING_SCOPE_BITS)
                by (bit_vector);
        }
        ScopeBits { bits: SKINNING_SCOPE_BITS }
    }

    pub fn union(self, other: ScopeBits) -> (s: ScopeBits)
        ensures
            s == self.spec_union(other),
            s.spec_needs_skinning() == (self.spec_needs_skinning() || other.spec_needs_skinning()),
            s.spec_contains(self) && s.spec_contains(other),
    {
        let a = self.bits;
        let b = other.bits;
        proof {
            assert(((a | b) & SKINNING_SCOPE_BITS == SKINNING_SCOPE_BITS) == ((a
                & SKINNING_SCOPE_BITS == SKINNING_SCOPE_BITS) || (b & SKINNING_SCOPE_BITS
                == SKINNING_SCOPE_BITS))) by (bit_vector);
            assert((a | b) & a == a) by (bit_vector);
            assert((a | b) & b == b) by (bit_vector);
        }
        ScopeBits { bits: a | b }
    }

    pub fn contains(&self, other: ScopeBits) -> (r: bool)
        ensures
            r == self.spec_contains(other),
    {
        self.bits & other.bits == other.bits
    }

    pub fn needs_skinning(&self) -> (r: bool)
        ensures
            r == self.spec_needs_skinning(),
    {
        self.bits & SKINNING_SCOPE_BITS == SKINNING_SCOPE_BITS
    }
}

/// The union of two sets of scopes needs skinning when one of them does.
pub proof fn lemma_union_needs_skinning(a: ScopeBits, b: ScopeBits)
    ensures
        a.spec_union(b).spec_needs_skinning() == (a.spec_needs_skinning()
            || b.spec_needs_skinning()),
        a.spec_union(b) == b.spec_union(a),
        a.spec_union(ScopeBits { bits: 0 }) == a,
{
    let x = a.bits;
    let y = b.bits;
    assert(((x | y) & SKINNING_SCOPE_BITS == SKINNING_SCOPE_BITS) == ((x & SKINNING_SCOPE_BITS
        == SKINNING_SCOPE_BITS) || (y & SKINNING_SCOPE_BITS == SKINNING_SCOPE_BITS)))
        by (bit_vector);
    assert(x | y == y | x) by (bit_vector);
    assert(x | 0u64 == x) by (bit_vector);
}

/// What the planner reads of a loaded technique.
#[derive(Clone, Copy, PartialEq, Eq, Structural, Debug)]
pub struct Technique {
    pub used_scopes: ScopeBits,
}

/// The techniques that are loaded, by content hash. A technique that is
/// still loading, or that could not be loaded, is not in the store.
pub struct TechniqueStore {
    techniques: HashMap<u32, Technique>,
}

impl View for TechniqueStore {
    type V = Map<u32, Technique>;

    closed spec fn view(&self) -> Map<u32, Technique> {
        self.techniques@
    }
}

impl TechniqueStore {
    /// The loaded technique behind a handle, if it is loaded.
    pub open spec fn spec_get(self, handle: TechniqueHandle) -> Option<Technique> {
        if self@.contains_key(handle.0.0) {
            Some(self@[handle.0.0])
        } else {
            None
        }
    }

    pub fn new() -> (store: Self)
        ensures
            store@ == Map::<u32, Technique>::empty(),
    {
        broadcast use vstd::std_specs::hash::group_hash_axioms;

        TechniqueStore { techniques: HashMap::new() }
    }

    /// Puts a loaded technique into the store, in place of what was loaded
    /// under the same hash before.
    pub fn insert(&mut self, tag: TagHash, technique: Technique)
        ensures
            final(self)@ == old(self)@.insert(tag.0, technique),
    {
        broadcast use vstd::std_specs::hash::group_hash_axioms;

        self.techniques.insert(tag.0, technique);
    }

    /// Takes a technique out of the store.
    pub fn remove(&mut self, tag: TagHash)
        ensures
            final(self)@ == old(self)@.remove(tag.0),
    {
        broadcast use vstd::std_specs::hash::group_hash_axioms;

        self.techniques.remove(&tag.0);
    }

    /// The technique behind a handle, if it is loaded.
    pub fn get_shared(&self, handle: TechniqueHandle) -> (technique: Option<Technique>)
        ensures
            technique == self.spec_get(handle),
    {
        broadcast use vstd::std_specs::hash::group_hash_axioms;

        match self.techniques.get(&handle.0.0) {
            Some(technique) => Some(*technique),
            None => None,
        }
    }
}

/// A run of variant techniques in a model's flat list of techniques: the
/// variants that the parts with one variant index cycle through.
#[derive(Clone, Copy, PartialEq, Eq, Structural, Debug)]
pub struct TechniqueMapEntry {
    pub technique_count: u32,
    pub technique_start: u32,
    pub unk8: u32,
}

impl TechniqueMapEntry {
    /// The place in the flat list of the technique that variant `variant`
    /// selects. Variants beyond the run start over at its first technique.
    /// An empty run selects nothing.
    pub open spec fn spec_list_index(self, variant: int) -> Option<int> {
        if self.technique_count == 0 {
            None
        } else {
            Some(self.technique_start + variant % (self.technique_count as int))
        }
    }

    pub fn list_index(&self, variant: usize) -> (index: Option<usize>)
        ensures
            match self.spec_list_index(variant as int) {
                Some(i) => if i <= usize::MAX {
                    index == Some(i as usize)
                } else {
                    index is None
                },
                None => index is None,
            },
            index is Some ==> self.technique_start <= index->0 < self.technique_start
                + self.technique_count,
    {
        if self.technique_count == 0 {
            return None;
        }
        let within: usize = variant % (self.technique_count as usize);
        (self.technique_start as usize).checked_add(within)
    }
}

/// The variant technique of a part: none for the index that means "no
/// variant", for an index beyond the technique map, for an empty run and for
/// a run that leaves the list of techniques; else the technique that
/// `variant` selects from the run.
pub open spec fn spec_variant_technique(
    technique_map: Seq<TechniqueMapEntry>,
    techniques: Seq<TechniqueHandle>,
    index: u16,
    variant: int,
) -> Option<TechniqueHandle> {
    if index == NO_VARIANT || index >= technique_map.len() {
        None
    } else {
        match technique_map[index as int].spec_list_index(variant) {
            Some(i) => if i < techniques.len() {
                Some(techniques[i])
            } else {
                None
            },
            None => None,
        }
    }
}

/// Finds the variant technique of a part.
pub fn variant_technique(
    technique_map: &Vec<TechniqueMapEntry>,
    techniques: &Vec<TechniqueHandle>,
    index: u16,
    variant: usize,
) -> (technique: Option<TechniqueHandle>)
    ensures
        technique == spec_variant_technique(technique_map@, techniques@, index, variant as int),
        index == NO_VARIANT ==> technique is None,
{
    if index == NO_VARIANT || index as usize >= technique_map.len() {
        return None;
    }
    let listed: usize = techniques.len();
    match technique_map[index as usize].list_index(variant) {
        Some(i) => if i < listed {
            Some(techniques[i])
        } else {
            None
        },
        None => None,
    }
}

/// The commands that bind a part's techniques: the base technique if it is
/// loaded, then the variant technique if there is one and it is loaded.
pub open spec fn spec_bind_commands(
    store: TechniqueStore,
    base: TechniqueHandle,
    variant: Option<TechniqueHandle>,
    channels: Option<Entity>,
) -> Seq<GpuCommand> {
    let first = if store.spec_get(base) is Some {
        seq![GpuCommand::BindTechnique { technique: base, channels }]
    } else {
        Seq::<GpuCommand>::empty()
    };
    let second = if variant is Some && store.spec_get(variant->0) is Some {
        seq![GpuCommand::BindTechnique { technique: variant->0, channels }]
    } else {
        Seq::<GpuCommand>::empty()
    };
    first + second
}

/// The scopes that a part's techniques need: those of the base technique and
/// those of the variant technique, as far as they are loaded.
pub open spec fn spec_bound_scopes(
    store: TechniqueStore,
    base: TechniqueHandle,
    variant: Option<TechniqueHandle>,
) -> ScopeBits {
    let first = match store.spec_get(base) {
        Some(technique) => technique.used_scopes,
        None => ScopeBits { bits: 0 },
    };
    let second = if variant is Some {
        match store.spec_get(variant->0) {
            Some(technique) => technique.used_scopes,
            None => ScopeBits { bits: 0 },
        }
    } else {
        ScopeBits { bits: 0 }
    };
    first.spec_union(second)
}

/// Binds the base technique and then the variant technique, and returns
/// with the commands the union of the scopes that the two need. A technique
/// that is not loaded is passed over; the other is still bound.
pub fn bind_techniques(
    store: &TechniqueStore,
    base: TechniqueHandle,
    variant: Option<TechniqueHandle>,
    channels: Option<Entity>,
) -> (bound: (Vec<GpuCommand>, ScopeBits))
    ensures
        bound.0@ == spec_bind_commands(*store, base, variant, channels),
        bound.1 == spec_bound_scopes(*store, base, variant),
{
    let mut commands: Vec<GpuCommand> = Vec::new();
    let mut scopes = ScopeBits::empty();
    let first = match store.get_shared(base) {
        Some(technique) => {
            commands.push(GpuCommand::BindTechnique { technique: base, channels });
            technique.used_scopes
        },
        None => ScopeBits::empty(),
    };
    let second = match variant {
        Some(handle) => match store.get_shared(handle) {
            Some(technique) => {
                commands.push(GpuCommand::BindTechnique { technique: handle, channels });
                technique.used_scopes
            },
            None => ScopeBits::empty(),
        },
        None => ScopeBits::empty(),
    };
    scopes = first.union(second);
    proof {
        assert(commands@ =~= spec_bind_commands(*store, base, variant, channels));
    }
    (commands, scopes)
}

/// The base technique is bound before the variant technique, so that what
/// the variant writes stays.
pub proof fn lemma_base_is_bound_first(
    store: TechniqueStore,
    base: TechniqueHandle,
    variant: TechniqueHandle,
    channels: Option<Entity>,
)
    requires
        store.spec_get(base) is Some,
        store.spec_get(variant) is Some,
    ensures
        spec_bind_commands(store, base, Some(variant), channels) == seq![
            GpuCommand::BindTechnique { technique: base, channels },
            GpuCommand::BindTechnique { technique: variant, channels },
        ],
{
    assert(spec_bind_commands(store, base, Some(variant), channels) =~= seq![
        GpuCommand::BindTechnique { technique: base, channels },
        GpuCommand::BindTechnique { technique: variant, channels },
    ]);
}

} // verus!
