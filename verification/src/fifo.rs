//! The elastic buffer of one link: a bounded queue of decoded messages,
//! created half full of fillers so that it can absorb a burst in either
//! direction before frequency control reacts.

use vstd::prelude::*;
use std::collections::VecDeque;
use crate::error::BittideChannelControlError;
use crate::links::{burst_get, burst_items, burst_len, filed};
use crate::message::{BittideMessage, encoded};

verus! {

/// `count` sync fillers in a row.
pub open spec fn fillers(count: nat) -> Seq<BittideMessage> {
    Seq::new(count, |i: int| BittideMessage::SyncMessage)
}

/// The smaller of two numbers.
pub open spec fn least(a: int, b: int) -> int {
    if a <= b {
        a
    } else {
        b
    }
}

/// The buffer of link `link` after the fill step: an enabled link takes the
/// filed burst in arrival order as far as its capacity reaches, a disabled
/// link takes nothing.
pub open spec fn fill_link(
    held: Seq<BittideMessage>,
    enabled: bool,
    burst: Seq<BittideMessage>,
    link: u8,
    capacity: int,
) -> Seq<BittideMessage> {
    if enabled {
        held + filed(burst, link).take(least(burst.len() as int, capacity - held.len()))
    } else {
        held
    }
}

/// The fill step runs out of room on this link.
pub open spec fn link_overflows(
    held: Seq<BittideMessage>,
    enabled: bool,
    burst: Seq<BittideMessage>,
    capacity: int,
) -> bool {
    enabled && held.len() + burst.len() > capacity
}

/// The buffer after the drain step: an enabled link that holds anything
/// loses its oldest message.
pub open spec fn drain_link(held: Seq<BittideMessage>, enabled: bool) -> Seq<BittideMessage> {
    if enabled && held.len() > 0 {
        held.drop_first()
    } else {
        held
    }
}

/// The word that the drain step hands to the local consumer: the encoding
/// of the oldest message of an enabled link if that is data, else nothing.
pub open spec fn forwarded(held: Seq<BittideMessage>, enabled: bool) -> Option<u32> {
    if enabled && held.len() > 0 && held[0] is CommMessage {
        Some(encoded(held[0]))
    } else {
        None
    }
}

/// A queue of messages, oldest first, that never holds more than `B`.
pub struct BittideFifo<const B: usize> {
    fifo: VecDeque<BittideMessage>,
}

impl<const B: usize> View for BittideFifo<B> {
    type V = Seq<BittideMessage>;

    closed spec fn view(&self) -> Seq<BittideMessage> {
        self.fifo@
    }
}

impl<const B: usize> BittideFifo<B> {
    /// The buffer holds no more than its capacity. Construction establishes
    /// this and every operation keeps it.
    pub open spec fn wf(&self) -> bool {
        self@.len() <= B
    }

    /// A buffer holding `B / 2` fillers.
    pub fn new() -> (fifo: Self)
        ensures
            fifo.wf(),
            fifo@ == fillers((B / 2) as nat),
            fifo@.len() == B / 2,
    {
        let mut fifo: VecDeque<BittideMessage> = VecDeque::new();
        let half: usize = B / 2;
        let mut filled: usize = 0;
        while filled < half
            invariant
                half == B / 2,
                filled <= half,
                fifo@ == fillers(filled as nat),
            decreases half - filled,
        {
            fifo.push_back(BittideMessage::SyncMessage);
            filled = filled + 1;
            assert(fifo@ =~= fillers(filled as nat));
        }
        Self { fifo }
    }

    /// The number of messages held.
    pub fn buffer_levels(&self) -> (level: usize)
        requires
            self.wf(),
        ensures
            level == self@.len(),
            level <= B,
    {
        self.fifo.len()
    }

    /// Appends a message behind the youngest. A full buffer takes nothing
    /// and hands the message back.
    pub fn push_back(&mut self, message: BittideMessage) -> (pushed: Result<(), BittideMessage>)
        requires
            old(self).wf(),
        ensures
            final(self).wf(),
            old(self)@.len() < B ==> pushed is Ok && final(self)@ == old(self)@.push(message),
            old(self)@.len() >= B ==> pushed == Err::<(), BittideMessage>(message) && final(self)@
                == old(self)@,
    {
        if self.fifo.len() >= B {
            Err(message)
        } else {
            self.fifo.push_back(message);
            Ok(())
        }
    }

    /// The fill step on an enabled link: files the burst under `link` and
    /// pushes it in arrival order. The step fails as soon as a message
    /// finds the buffer full; what went in before stays in.
    pub fn absorb(&mut self, burst: &heapless::Vec<BittideMessage, 4>, link: u8) -> (r: Result<
        (),
        BittideChannelControlError,
    >)
        requires
            old(self).wf(),
        ensures
            final(self).wf(),
            final(self)@ == fill_link(old(self)@, true, burst_items(*burst), link, B as int),
            r is Err <==> link_overflows(old(self)@, true, burst_items(*burst), B as int),
            r is Err ==> r == Err::<(), BittideChannelControlError>(
                BittideChannelControlError::TideFifoFull,
            ) && final(self)@.len() == B,
    {
        let n: usize = burst_len(burst);
        let ghost items = burst_items(*burst);
        let mut j: usize = 0;
        assert(self@ =~= old(self)@ + filed(items, link).take(0));
        while j < n
            invariant
                j <= n,
                n == items.len(),
                items == burst_items(*burst),
                self.wf(),
                old(self).wf(),
                self@ == old(self)@ + filed(items, link).take(j as int),
            decreases n - j,
        {
            let message = burst_get(burst, j).received_on(link);
            match self.push_back(message) {
                Ok(_) => {},
                Err(_) => {
                    return Err(BittideChannelControlError::TideFifoFull);
                },
            }
            j = j + 1;
            assert(self@ =~= old(self)@ + filed(items, link).take(j as int));
        }
        Ok(())
    }

    /// The drain step on an enabled link: removes the oldest message and
    /// returns its word if it is data. A filler is dropped, and an empty
    /// buffer, which means a link without neighbour or a starved one, gives
    /// nothing.
    pub fn release(&mut self) -> (word: Option<u32>)
        requires
            old(self).wf(),
        ensures
            final(self).wf(),
            final(self)@ == drain_link(old(self)@, true),
            word == forwarded(old(self)@, true),
    {
        match self.pop_front() {
            Some(message) => match message {
                BittideMessage::SyncMessage => None,
                BittideMessage::CommMessage { neighbor: _, data: _ } => Some(message.serialize()),
            },
            None => None,
        }
    }

    /// Removes the oldest message, if there is one.
    pub fn pop_front(&mut self) -> (popped: Option<BittideMessage>)
        requires
            old(self).wf(),
        ensures
            final(self).wf(),
            old(self)@.len() == 0 ==> popped is None && final(self)@ == old(self)@,
            old(self)@.len() > 0 ==> popped == Some(old(self)@[0]) && final(self)@ == old(
                self,
            )@.drop_first(),
    {
        let popped = self.fifo.pop_front();
        proof {
            if old(self)@.len() > 0 {
                assert(self@ =~= old(self)@.drop_first());
            }
        }
        popped
    }
}

impl<const B: usize> Default for BittideFifo<B> {
    fn default() -> (fifo: Self)
        ensures
            fifo.wf(),
            fifo@ == fillers((B / 2) as nat),
    {
        Self::new()
    }
}

} // verus!
