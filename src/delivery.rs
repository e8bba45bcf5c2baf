use vstd::prelude::*;

use crate::epoch::PutRequest;

verus! {

/// Whether `q` writes element `index` of rank `rank`'s slice.
pub open spec fn writes_to<T>(q: PutRequest<T>, rank: int, index: int) -> bool {
    q.target_rank == rank && q.target_disp == index
}

/// The members' slices, indexed by rank, once the transport has carried out
/// `q`: the element it addresses takes its value, and nothing else changes.
pub open spec fn deliver<T>(slices: Seq<Seq<T>>, q: PutRequest<T>) -> Seq<Seq<T>> {
    let rank = q.target_rank as int;
    let index = q.target_disp as int;
    if 0 <= rank < slices.len() && 0 <= index < slices[rank].len() {
        slices.update(rank, slices[rank].update(index, q.value))
    } else {
        slices
    }
}

/// The slices after a barrier, by which every put in `qs` has been carried
/// out, in the order in which `qs` lists them.
pub open spec fn deliver_all<T>(slices: Seq<Seq<T>>, qs: Seq<PutRequest<T>>) -> Seq<Seq<T>>
    decreases qs.len(),
{
    if qs.len() == 0 {
        slices
    } else {
        deliver(deliver_all(slices, qs.subrange(0, qs.len() - 1)), qs.last())
    }
}

/// Delivering puts never changes how many slices there are, nor their lengths.
pub proof fn lemma_deliver_all_keeps_shape<T>(slices: Seq<Seq<T>>, qs: Seq<PutRequest<T>>)
    ensures
        deliver_all(slices, qs).len() == slices.len(),
        forall|rank: int|
            0 <= rank < slices.len() ==> #[trigger] deliver_all(slices, qs)[rank].len()
                == slices[rank].len(),
    decreases qs.len(),
{
    if qs.len() > 0 {
        lemma_deliver_all_keeps_shape(slices, qs.subrange(0, qs.len() - 1));
    }
}

/// Round trip with a single writer: a put of `value` to element `index` of
/// `rank`'s slice, followed by a barrier, leaves exactly `value` there for the
/// owner to read, whatever other puts were delivered at the same barrier and
/// in whatever order, as long as none of them wrote that same element.
pub proof fn lemma_put_barrier_read<T>(
    slices: Seq<Seq<T>>,
    qs: Seq<PutRequest<T>>,
    k: int,
    rank: int,
    index: int,
    value: T,
)
    requires
        0 <= rank < slices.len(),
        0 <= index < slices[rank].len(),
        0 <= k < qs.len(),
        writes_to(qs[k], rank, index),
        qs[k].value == value,
        forall|j: int| 0 <= j < qs.len() && j != k ==> !writes_to(#[trigger] qs[j], rank, index),
    ensures
        deliver_all(slices, qs)[rank].len() == slices[rank].len(),
        deliver_all(slices, qs)[rank][index] == value,
    decreases qs.len(),
{
    let init = qs.subrange(0, qs.len() - 1);
    lemma_deliver_all_keeps_shape(slices, init);
    lemma_deliver_all_keeps_shape(slices, qs);
    if k < qs.len() - 1 {
        assert forall|j: int| 0 <= j < init.len() && j != k implies !writes_to(
            #[trigger] init[j],
            rank,
            index,
        ) by {
            assert(init[j] == qs[j]);
        }
        lemma_put_barrier_read(slices, init, k, rank, index, value);
        assert(!writes_to(qs[qs.len() - 1], rank, index));
    }
}

} // verus!
