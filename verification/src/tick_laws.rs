//! What holds of the buffers over one tick and over any row of ticks.

use vstd::prelude::*;
use crate::channel::{
    drained_buffers, filled_buffers, first_overflow, run_ticks, tick_buffers, within_capacity,
};
use crate::fifo::{drain_link, fill_link, fillers, forwarded, link_overflows};
use crate::links::filed;
use crate::message::{BittideMessage, decoded, encoded};

verus! {

/// Where the fill step stops, a link is enabled and overflows; no link
/// before it does.
pub proof fn lemma_first_overflow(
    held: Seq<Seq<BittideMessage>>,
    mask: Seq<bool>,
    bursts: Seq<Seq<BittideMessage>>,
    capacity: int,
    from: int,
)
    requires
        0 <= from <= held.len(),
    ensures
        from <= first_overflow(held, mask, bursts, capacity, from) <= held.len(),
        first_overflow(held, mask, bursts, capacity, from) < held.len() ==> link_overflows(
            held[first_overflow(held, mask, bursts, capacity, from)],
            mask[first_overflow(held, mask, bursts, capacity, from)],
            bursts[first_overflow(held, mask, bursts, capacity, from)],
            capacity,
        ),
        forall|j: int|
            from <= j < first_overflow(held, mask, bursts, capacity, from) ==> !link_overflows(
                held[j],
                mask[j],
                bursts[j],
                capacity,
            ),
    decreases held.len() - from,
{
    if from < held.len() && !link_overflows(held[from], mask[from], bursts[from], capacity) {
        lemma_first_overflow(held, mask, bursts, capacity, from + 1);
    }
}

/// Neither step lets a buffer leave its bounds: after the fill step and
/// after the drain step every level lies between zero and the capacity,
/// and the fill step fails exactly when some enabled link had more to take
/// than room for it. In particular a single message pushed at a full
/// buffer fails the step.
pub proof fn lemma_levels_stay_bounded(
    held: Seq<Seq<BittideMessage>>,
    mask: Seq<bool>,
    bursts: Seq<Seq<BittideMessage>>,
    capacity: int,
)
    requires
        mask.len() == held.len(),
        bursts.len() == held.len(),
        within_capacity(held, capacity),
    ensures
        within_capacity(filled_buffers(held, mask, bursts, capacity), capacity),
        within_capacity(drained_buffers(held, mask), capacity),
        first_overflow(held, mask, bursts, capacity, 0) < held.len() <==> exists|i: int|
            0 <= i < held.len() && link_overflows(held[i], mask[i], bursts[i], capacity),
        forall|i: int|
            0 <= i < held.len() && mask[i] && held[i].len() == capacity && bursts[i].len() > 0
                ==> first_overflow(held, mask, bursts, capacity, 0) < held.len(),
{
    lemma_first_overflow(held, mask, bursts, capacity, 0);
    let after = filled_buffers(held, mask, bursts, capacity);
    assert forall|i: int| 0 <= i < after.len() implies (#[trigger] after[i]).len() <= capacity by {
        assert(held[i].len() <= capacity);
    }
    let drained = drained_buffers(held, mask);
    assert forall|i: int| 0 <= i < drained.len() implies (#[trigger] drained[i]).len()
        <= capacity by {
        assert(held[i].len() <= capacity);
    }
}

/// The level of one buffer after `ticks` ticks in which nothing arrives on
/// its link.
pub open spec fn level_after_silence(level: nat, enabled: bool, ticks: nat) -> nat {
    if enabled && level >= ticks {
        (level - ticks) as nat
    } else if enabled {
        0
    } else {
        level
    }
}

/// A tick in which no link delivers anything cannot overflow a buffer. It
/// fills every buffer by nothing and drains every enabled one by one, down
/// to empty and no further.
pub proof fn lemma_quiet_tick(
    held: Seq<Seq<BittideMessage>>,
    mask: Seq<bool>,
    bursts: Seq<Seq<BittideMessage>>,
    capacity: int,
)
    requires
        mask.len() == held.len(),
        bursts.len() == held.len(),
        within_capacity(held, capacity),
        forall|i: int| 0 <= i < bursts.len() ==> (#[trigger] bursts[i]).len() == 0,
    ensures
        first_overflow(held, mask, bursts, capacity, 0) == held.len(),
        filled_buffers(held, mask, bursts, capacity) == held,
        forall|i: int|
            0 <= i < held.len() ==> (#[trigger] drained_buffers(
                filled_buffers(held, mask, bursts, capacity),
                mask,
            )[i]).len() == level_after_silence(held[i].len(), mask[i], 1),
{
    lemma_first_overflow(held, mask, bursts, capacity, 0);
    let stop = first_overflow(held, mask, bursts, capacity, 0);
    if stop < held.len() {
        assert(bursts[stop].len() == 0);
        assert(held[stop].len() <= capacity);
    }
    let filled = filled_buffers(held, mask, bursts, capacity);
    assert forall|i: int| 0 <= i < held.len() implies filled[i] == held[i] by {
        assert(bursts[i].len() == 0);
        assert(held[i].len() <= capacity);
        assert(fill_link(held[i], mask[i], bursts[i], i as u8, capacity) =~= held[i]);
    }
    assert(filled =~= held);
}

/// The node's side of a tick keeps every buffer within its capacity and
/// keeps the number of buffers.
pub proof fn lemma_tick_stays_bounded(
    held: Seq<Seq<BittideMessage>>,
    mask: Seq<bool>,
    bursts: Seq<Seq<BittideMessage>>,
    capacity: int,
)
    requires
        mask.len() == held.len(),
        bursts.len() == held.len(),
        within_capacity(held, capacity),
    ensures
        tick_buffers(held, mask, bursts, capacity).len() == held.len(),
        within_capacity(tick_buffers(held, mask, bursts, capacity), capacity),
{
    lemma_levels_stay_bounded(held, mask, bursts, capacity);
    let filled = filled_buffers(held, mask, bursts, capacity);
    lemma_levels_stay_bounded(filled, mask, bursts, capacity);
}

/// Whatever the links deliver, tick after tick, no buffer ever leaves its
/// bounds: after any row of ticks every level lies between zero and the
/// capacity.
pub proof fn lemma_ticks_stay_bounded(
    held: Seq<Seq<BittideMessage>>,
    mask: Seq<bool>,
    deliveries: Seq<Seq<Seq<BittideMessage>>>,
    capacity: int,
)
    requires
        mask.len() == held.len(),
        within_capacity(held, capacity),
        forall|k: int| 0 <= k < deliveries.len() ==> (#[trigger] deliveries[k]).len() == held.len(),
    ensures
        run_ticks(held, mask, deliveries, capacity).len() == held.len(),
        within_capacity(run_ticks(held, mask, deliveries, capacity), capacity),
        forall|i: int|
            0 <= i < held.len() ==> 0 <= (#[trigger] run_ticks(
                held,
                mask,
                deliveries,
                capacity,
            )[i]).len() <= capacity,
    decreases deliveries.len(),
{
    if deliveries.len() > 0 {
        assert(deliveries[0].len() == held.len());
        lemma_tick_stays_bounded(held, mask, deliveries[0], capacity);
        let next = tick_buffers(held, mask, deliveries[0], capacity);
        let rest = deliveries.drop_first();
        assert forall|k: int| 0 <= k < rest.len() implies (#[trigger] rest[k]).len()
            == next.len() by {
            assert(rest[k] == deliveries[k + 1]);
        }
        lemma_ticks_stay_bounded(next, mask, rest, capacity);
    }
}

/// With no traffic at all, tick after tick, the level of every enabled
/// buffer falls by one per tick until the buffer is empty and stays at zero
/// from then on; a disabled buffer keeps its level.
pub proof fn lemma_quiet_ticks(
    held: Seq<Seq<BittideMessage>>,
    mask: Seq<bool>,
    deliveries: Seq<Seq<Seq<BittideMessage>>>,
    capacity: int,
)
    requires
        mask.len() == held.len(),
        within_capacity(held, capacity),
        forall|k: int| 0 <= k < deliveries.len() ==> (#[trigger] deliveries[k]).len() == held.len(),
        forall|k: int, i: int|
            0 <= k < deliveries.len() && 0 <= i < held.len() ==> (#[trigger] deliveries[k][i]).len()
                == 0,
    ensures
        run_ticks(held, mask, deliveries, capacity).len() == held.len(),
        forall|i: int|
            0 <= i < held.len() ==> (#[trigger] run_ticks(held, mask, deliveries, capacity)[i]).len()
                == level_after_silence(held[i].len(), mask[i], deliveries.len()),
    decreases deliveries.len(),
{
    if deliveries.len() > 0 {
        let first = deliveries[0];
        assert(first.len() == held.len());
        assert forall|i: int| 0 <= i < first.len() implies (#[trigger] first[i]).len() == 0 by {
            assert(deliveries[0][i].len() == 0);
        }
        lemma_quiet_tick(held, mask, first, capacity);
        lemma_tick_stays_bounded(held, mask, first, capacity);
        let next = tick_buffers(held, mask, first, capacity);
        let rest = deliveries.drop_first();
        assert forall|k: int| 0 <= k < rest.len() implies (#[trigger] rest[k]).len()
            == next.len() by {
            assert(rest[k] == deliveries[k + 1]);
        }
        assert forall|k: int, i: int| 0 <= k < rest.len() && 0 <= i < next.len() implies (
        #[trigger] rest[k][i]).len() == 0 by {
            assert(rest[k] == deliveries[k + 1]);
            assert(deliveries[k + 1][i].len() == 0);
        }
        lemma_quiet_ticks(next, mask, rest, capacity);
        assert forall|i: int| 0 <= i < held.len() implies (#[trigger] run_ticks(
            held,
            mask,
            deliveries,
            capacity,
        )[i]).len() == level_after_silence(held[i].len(), mask[i], deliveries.len()) by {
            assert(next[i].len() == level_after_silence(held[i].len(), mask[i], 1));
            assert(run_ticks(next, mask, rest, capacity)[i].len() == level_after_silence(
                next[i].len(),
                mask[i],
                rest.len(),
            ));
        }
    }
}

/// Every data message in the buffer names the link `link`.
pub open spec fn tagged(held: Seq<BittideMessage>, link: u8) -> bool {
    forall|j: int|
        0 <= j < held.len() ==> ((#[trigger] held[j]) matches BittideMessage::CommMessage {
            neighbor,
            ..
        } ==> neighbor == link)
}

/// A buffer only ever holds data that names its own link: a fresh buffer
/// holds fillers alone, the fill step files what it adds under the link,
/// whatever the sender wrote, and the drain step adds nothing.
pub proof fn lemma_tags_kept(
    held: Seq<BittideMessage>,
    enabled: bool,
    burst: Seq<BittideMessage>,
    link: u8,
    capacity: int,
    prefill: nat,
)
    requires
        tagged(held, link),
        held.len() <= capacity,
    ensures
        tagged(fillers(prefill), link),
        tagged(filed(burst, link), link),
        tagged(fill_link(held, enabled, burst, link, capacity), link),
        tagged(drain_link(held, enabled), link),
{
    let after = fill_link(held, enabled, burst, link, capacity);
    assert forall|j: int| 0 <= j < after.len() implies ((#[trigger] after[j])
        matches BittideMessage::CommMessage { neighbor, .. } ==> neighbor == link) by {
        if j < held.len() {
            assert(after[j] == held[j]);
        } else if enabled {
            let room = if burst.len() <= capacity - held.len() {
                burst.len() as int
            } else {
                capacity - held.len()
            };
            assert(after[j] == filed(burst, link).take(room)[j - held.len()]);
            assert(after[j] == filed(burst, link)[j - held.len()]);
        }
    }
    let drained = drain_link(held, enabled);
    assert forall|j: int| 0 <= j < drained.len() implies ((#[trigger] drained[j])
        matches BittideMessage::CommMessage { neighbor, .. } ==> neighbor == link) by {
        if enabled && held.len() > 0 {
            assert(drained[j] == held[j + 1]);
        }
    }
}

/// What the drain step forwards from such a buffer decodes to data that
/// names the link.
pub proof fn lemma_forwarded_names_link(held: Seq<BittideMessage>, enabled: bool, link: u8)
    requires
        tagged(held, link),
        link < 8,
    ensures
        forwarded(held, enabled) matches Some(word) ==> (decoded(word)
            matches BittideMessage::CommMessage { neighbor, .. } && neighbor == link),
{
    if enabled && held.len() > 0 && held[0] is CommMessage {
        let word = encoded(held[0]);
        match held[0] {
            BittideMessage::SyncMessage => {},
            BittideMessage::CommMessage { neighbor, data } => {
                assert(neighbor == link);
                let n: u32 = (neighbor & 0b111u8) as u32;
                let d: u32 = data & 0x0fff_ffffu32;
                let raw: u32 = (n << 1u32) | (d << 4u32);
                assert(n == neighbor as u32) by (bit_vector)
                    requires
                        neighbor < 8,
                        n == (neighbor & 0b111u8) as u32,
                ;
                assert(raw != 1u32 && ((raw >> 1u32) & 0b111u32) == n) by (bit_vector)
                    requires
                        n < 8,
                        raw == (n << 1u32) | (d << 4u32),
                ;
            },
        }
    }
}

} // verus!
