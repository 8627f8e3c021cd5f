//! Foreign toplevels embedded in a window's surface, tracked by the ids the
//! window hands out for them.

use vstd::prelude::*;
use std::collections::HashMap;

verus! {

broadcast use vstd::std_specs::hash::group_hash_axioms;

/// The embedded surfaces of one window, keyed by the id handed out for each.
///
/// `E` is the embedded-surface handle the caller holds; dropping it ends
/// the embed.
pub struct EmbedRegistry<E> {
    surfaces: HashMap<u64, E>,
    next_embed_id: u64,
}

impl<E> EmbedRegistry<E> {
    /// The embedded surfaces by id.
    pub closed spec fn surfaces(&self) -> Map<u64, E> {
        self.surfaces@
    }

    /// The id the next embed gets.
    pub closed spec fn next_id(&self) -> u64 {
        self.next_embed_id
    }

    /// Every id in use was handed out before the next one: ids are fresh.
    pub open spec fn well_formed(&self) -> bool {
        &&& 1 <= self.next_id()
        &&& forall|id: u64| #[trigger] self.surfaces().contains_key(id) ==> 1 <= id < self.next_id()
    }

    /// No embeds yet; the first id is 1.
    pub fn new() -> (registry: Self)
        ensures
            registry.well_formed(),
            registry.surfaces() == Map::<u64, E>::empty(),
            registry.next_id() == 1,
    {
        EmbedRegistry { surfaces: HashMap::new(), next_embed_id: 1 }
    }

    /// Track a new embedded surface under the next id, which is returned.
    pub fn insert(&mut self, embedded: E) -> (id: u64)
        requires
            old(self).well_formed(),
            old(self).next_id() < u64::MAX,
        ensures
            final(self).well_formed(),
            id == old(self).next_id(),
            !old(self).surfaces().contains_key(id),
            final(self).surfaces() == old(self).surfaces().insert(id, embedded),
            final(self).next_id() == old(self).next_id() + 1,
    {
        let embed_id = self.next_embed_id;
        self.next_embed_id = self.next_embed_id + 1;
        self.surfaces.insert(embed_id, embedded);
        assert forall|k: u64| #[trigger] self.surfaces().contains_key(k) implies 1 <= k < self.next_id() by {
            if k != embed_id {
                assert(old(self).surfaces().contains_key(k));
            }
        }
        embed_id
    }

    /// The embedded surface tracked under `id`, if any.
    pub fn get(&self, id: u64) -> (embedded: Option<&E>)
        ensures
            match embedded {
                Some(e) => self.surfaces().contains_key(id) && *e == self.surfaces()[id],
                None => !self.surfaces().contains_key(id),
            },
    {
        self.surfaces.get(&id)
    }

    /// Stop tracking the embed under `id`, dropping its handle. Returns
    /// whether there was one.
    pub fn remove(&mut self, id: u64) -> (removed: bool)
        requires
            old(self).well_formed(),
        ensures
            final(self).well_formed(),
            removed == old(self).surfaces().contains_key(id),
            final(self).surfaces() == old(self).surfaces().remove(id),
            final(self).next_id() == old(self).next_id(),
    {
        let removed = self.surfaces.remove(&id).is_some();
        assert forall|k: u64| #[trigger] self.surfaces().contains_key(k) implies 1 <= k < self.next_id() by {
            assert(old(self).surfaces().contains_key(k));
        }
        removed
    }
}

/// How many of `steps` are inserts (`true`) rather than removals.
pub open spec fn count_inserts(steps: Seq<bool>) -> nat
    decreases steps.len(),
{
    if steps.len() == 0 {
        0
    } else {
        count_inserts(steps.drop_last()) + if steps.last() {
            1nat
        } else {
            0nat
        }
    }
}

/// Embed ids are handed out in turn and never reused: over any run of
/// inserts and removals on a registry made by [`EmbedRegistry::new`], the
/// `k`-th insert gets id `k`, and every insert's id is below all later ones,
/// removals notwithstanding. `registries[i]` is the registry before step `i`,
/// which inserts when `inserts[i]` holds and removes otherwise.
pub proof fn lemma_embed_ids_in_turn<E>(registries: Seq<EmbedRegistry<E>>, inserts: Seq<bool>)
    requires
        registries.len() == inserts.len() + 1,
        registries[0].next_id() == 1,
        forall|i: int|
            0 <= i < inserts.len() ==> #[trigger] registries[i + 1].next_id() == registries[i].next_id()
                + if inserts[i] {
                1int
            } else {
                0int
            },
    ensures
        forall|i: int|
            0 <= i <= inserts.len() ==> #[trigger] registries[i].next_id() == 1 + count_inserts(
                inserts.take(i),
            ),
        forall|i: int, j: int|
            0 <= i < j <= inserts.len() && inserts[i] ==> #[trigger] registries[i].next_id()
                < #[trigger] registries[j].next_id(),
    decreases inserts.len(),
{
    if inserts.len() > 0 {
        let n = inserts.len() - 1;
        let rs = registries.drop_last();
        let is = inserts.drop_last();
        assert forall|i: int| 0 <= i < is.len() implies #[trigger] rs[i + 1].next_id() == rs[i].next_id()
            + if is[i] {
            1int
        } else {
            0int
        } by {
            assert(registries[i + 1].next_id() == registries[i].next_id() + if inserts[i] {
                1int
            } else {
                0int
            });
        }
        lemma_embed_ids_in_turn(rs, is);
        assert(inserts.take(n + 1).drop_last() =~= inserts.take(n));
        assert(inserts.take(n) =~= is.take(n));
        assert forall|i: int| 0 <= i <= inserts.len() implies #[trigger] registries[i].next_id() == 1
            + count_inserts(inserts.take(i)) by {
            if i <= n {
                assert(rs[i].next_id() == 1 + count_inserts(is.take(i)));
                assert(is.take(i) =~= inserts.take(i));
            } else {
                assert(rs[n].next_id() == 1 + count_inserts(is.take(n)));
                assert(registries[n + 1].next_id() == registries[n].next_id() + if inserts[n] {
                    1int
                } else {
                    0int
                });
            }
        }
        assert forall|i: int, j: int|
            0 <= i < j <= inserts.len() && inserts[i] implies #[trigger] registries[i].next_id()
            < #[trigger] registries[j].next_id() by {
            if j <= n {
                assert(rs[i].next_id() < rs[j].next_id());
            } else if i < n {
                assert(rs[i].next_id() < rs[n].next_id());
                assert(registries[n + 1].next_id() >= registries[n].next_id());
            } else {
                assert(registries[n + 1].next_id() == registries[n].next_id() + 1);
            }
        }
    }
}

/// The geometry an embed starts with: the given rectangle when it has a
/// positive size, else none, leaving the embed to anchor-based placement.
pub fn initial_embed_geometry(x: i32, y: i32, width: i32, height: i32) -> (geometry: Option<
    (i32, i32, i32, i32),
>)
    ensures
        geometry == if width > 0 && height > 0 {
            Some((x, y, width, height))
        } else {
            None
        },
{
    if width > 0 && height > 0 {
        Some((x, y, width, height))
    } else {
        None
    }
}

} // verus!
