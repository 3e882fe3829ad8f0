//! The router's guarantees, stated and proved over the abstract registry
//! map and the routing channels.

use vstd::prelude::*;
use crate::kind::classify_spec;
use crate::kind::recognized;
use crate::kind::ResponseKind;
use crate::router::result_channel;
use crate::router::error_channel;

verus! {

/// Once a registration has been submitted and a completed delivery has
/// removed it, the registry no longer holds the identifier: by `deliver`'s
/// contract every later delivery under it names no listener and leaves the
/// registry unchanged.
pub proof fn lemma_no_delivery_after_completion<L>(registry: Map<u32, L>, id: u32, listener: L)
    ensures
        !registry.insert(id, listener).remove(id).contains_key(id),
{
}

/// Exactly one channel of a delivery carries data: for every kind other
/// than `Error` the error channel is empty, and for `Error` the result
/// channel is empty.
pub proof fn lemma_one_channel_empty(payload: Seq<char>, tag: u32)
    ensures
        classify_spec(tag) != ResponseKind::Error ==> error_channel(payload, tag)
            == Seq::<char>::empty(),
        classify_spec(tag) == ResponseKind::Error ==> result_channel(payload, tag)
            == Seq::<char>::empty(),
{
}

/// An unrecognized numeric tag is classified as `Error`, so its payload
/// travels on the error channel and the result channel stays empty.
pub proof fn lemma_unrecognized_tag_is_error(payload: Seq<char>, tag: u32)
    requires
        !recognized(tag),
    ensures
        classify_spec(tag) == ResponseKind::Error,
        result_channel(payload, tag) == Seq::<char>::empty(),
        error_channel(payload, tag) == payload,
{
}

/// The registry after a batch of registrations, applied first to last.
/// Registry mutations are serialized by the embedding program's lock, so a
/// group of concurrent submissions reaches the registry as some such batch.
pub open spec fn register_all<L>(registry: Map<u32, L>, entries: Seq<(u32, L)>) -> Map<u32, L>
    decreases entries.len(),
{
    if entries.len() == 0 {
        registry
    } else {
        register_all(registry.insert(entries[0].0, entries[0].1), entries.drop_first())
    }
}

/// A batch of registrations whose identifiers all differ from `id` leaves
/// an existing registration under `id` untouched.
pub proof fn lemma_batch_preserves_other_id<L>(
    registry: Map<u32, L>,
    entries: Seq<(u32, L)>,
    id: u32,
)
    requires
        registry.contains_key(id),
        forall|j: int| 0 <= j < entries.len() ==> (#[trigger] entries[j]).0 != id,
    ensures
        register_all(registry, entries).contains_key(id),
        register_all(registry, entries)[id] == registry[id],
    decreases entries.len(),
{
    if entries.len() > 0 {
        lemma_batch_preserves_other_id(
            registry.insert(entries[0].0, entries[0].1),
            entries.drop_first(),
            id,
        );
    }
}

/// No registration is lost among submissions under distinct identifiers:
/// after a batch whose identifiers are pairwise distinct, every entry of the
/// batch is present in the registry, under its own identifier and with its
/// own listener.
pub proof fn lemma_distinct_ids_lose_no_registration<L>(
    registry: Map<u32, L>,
    entries: Seq<(u32, L)>,
    i: int,
)
    requires
        0 <= i < entries.len(),
        forall|j: int, k: int|
            0 <= j < k < entries.len() ==> (#[trigger] entries[j]).0 != (#[trigger] entries[k]).0,
    ensures
        register_all(registry, entries).contains_key(entries[i].0),
        register_all(registry, entries)[entries[i].0] == entries[i].1,
    decreases entries.len(),
{
    let advanced = registry.insert(entries[0].0, entries[0].1);
    if i == 0 {
        assert(forall|j: int|
            0 <= j < entries.drop_first().len() ==> (#[trigger] entries.drop_first()[j]).0
                != entries[0].0);
        lemma_batch_preserves_other_id(advanced, entries.drop_first(), entries[0].0);
    } else {
        lemma_distinct_ids_lose_no_registration(advanced, entries.drop_first(), i - 1);
    }
}

} // verus!
