//! The channel controller: what a node does once per tick.
//!
//! A tick takes at most one word from the local producer, sends one word on
//! every link, files what the links delivered in the elastic buffers, drains
//! one message from every buffer, forwards drained data to the local
//! consumer and hands the buffer levels to the frequency controller.

use vstd::prelude::*;
use crate::controller::{FrequencyController, half_full, lemma_levels_total_bound, levels_total};
use crate::error::{BittideChannelControlError, result_code};
use crate::fifo::{BittideFifo, drain_link, fill_link, fillers, forwarded, link_overflows};
use crate::fixed_point::MAX_WHOLE;
use crate::links::{BURST, Fifo, Links, burst_get, burst_items, burst_len};
use crate::message::{BittideMessage, decoded};
use crate::tick_laws::lemma_first_overflow;

verus! {

/// The telemetry of the channel controller, read between ticks.
#[derive(Debug, Clone, Copy, PartialEq, Eq)]
pub struct BittideChannelControlDebugInfo {
    /// The level of the first four buffers after the last complete tick.
    pub buffer_levels: [u32; 4],
    /// Fillers received so far, counted modulo two to the 32nd.
    pub rx_sync_message_counter: u32,
    /// Data messages received so far, counted modulo two to the 32nd.
    pub rx_comm_message_counter: u32,
    /// The code of the last tick's result.
    pub last_error: u32,
}

impl Default for BittideChannelControlDebugInfo {
    fn default() -> (info: Self)
        ensures
            info.buffer_levels@ == seq![0u32, 0u32, 0u32, 0u32],
            info.rx_sync_message_counter == 0,
            info.rx_comm_message_counter == 0,
            info.last_error == 0,
    {
        let info = Self {
            buffer_levels: [0, 0, 0, 0],
            rx_sync_message_counter: 0,
            rx_comm_message_counter: 0,
            last_error: 0,
        };
        assert(info.buffer_levels@ =~= seq![0u32, 0u32, 0u32, 0u32]);
        info
    }
}

/// What the tick sends, one message per link: the user's word in the slot
/// of the neighbour it names if it is valid data, fillers everywhere else.
pub open spec fn outbound(user_word: Option<u32>, degree: nat) -> Seq<BittideMessage> {
    match staging_verdict(user_word, degree) {
        Ok(_) => match user_word {
            Some(word) => fillers(degree).update(staged_slot(word), decoded(word)),
            None => fillers(degree),
        },
        Err(_) => fillers(degree),
    }
}

/// The link that a user word names.
pub open spec fn staged_slot(word: u32) -> int {
    match decoded(word) {
        BittideMessage::SyncMessage => 0,
        BittideMessage::CommMessage { neighbor, .. } => neighbor as int,
    }
}

/// Whether the local producer's word can be sent: the sync word is not the
/// producer's to send, and a data word must name one of the `degree` links.
pub open spec fn staging_verdict(user_word: Option<u32>, degree: nat) -> Result<
    (),
    BittideChannelControlError,
> {
    match user_word {
        None => Ok(()),
        Some(word) => match decoded(word) {
            BittideMessage::SyncMessage => Err(BittideChannelControlError::SyncMessageFromUserCode),
            BittideMessage::CommMessage { neighbor, .. } => if neighbor < degree {
                Ok(())
            } else {
                Err(BittideChannelControlError::InvalidNeigbor)
            },
        },
    }
}

/// Decides what goes out on the links in this tick. A word that cannot be
/// sent is reported and replaced by a filler.
pub fn stage<const DEGREE: usize>(user_word: Option<u32>) -> (staged: (
    [BittideMessage; DEGREE],
    Result<(), BittideChannelControlError>,
))
    ensures
        staged.0@ == outbound(user_word, DEGREE as nat),
        staged.1 == staging_verdict(user_word, DEGREE as nat),
{
    let mut messages = [BittideMessage::SyncMessage; DEGREE];
    assert(messages@ =~= fillers(DEGREE as nat));
    match user_word {
        None => (messages, Ok(())),
        Some(word) => {
            let message = BittideMessage::deserialize(word);
            match message {
                BittideMessage::SyncMessage => (
                    messages,
                    Err(BittideChannelControlError::SyncMessageFromUserCode),
                ),
                BittideMessage::CommMessage { neighbor, data: _ } => {
                    let slot: usize = neighbor as usize;
                    if slot < DEGREE {
                        messages[slot] = message;
                        (messages, Ok(()))
                    } else {
                        (messages, Err(BittideChannelControlError::InvalidNeigbor))
                    }
                },
            }
        },
    }
}

/// The first link from `from` on at which the fill step runs out of room,
/// or the number of links if there is none.
pub open spec fn first_overflow(
    held: Seq<Seq<BittideMessage>>,
    mask: Seq<bool>,
    bursts: Seq<Seq<BittideMessage>>,
    capacity: int,
    from: int,
) -> int
    decreases held.len() - from,
{
    if from >= held.len() {
        held.len() as int
    } else if link_overflows(held[from], mask[from], bursts[from], capacity) {
        from
    } else {
        first_overflow(held, mask, bursts, capacity, from + 1)
    }
}

/// The buffers after the fill step. The links are served in order, and the
/// step ends at the first that overflows: that one is filled to the brim,
/// those behind it are not touched.
pub open spec fn filled_buffers(
    held: Seq<Seq<BittideMessage>>,
    mask: Seq<bool>,
    bursts: Seq<Seq<BittideMessage>>,
    capacity: int,
) -> Seq<Seq<BittideMessage>> {
    let stop = first_overflow(held, mask, bursts, capacity, 0);
    Seq::new(
        held.len(),
        |i: int|
            if i <= stop {
                fill_link(held[i], mask[i], bursts[i], i as u8, capacity)
            } else {
                held[i]
            },
    )
}

/// The buffers after the drain step.
pub open spec fn drained_buffers(held: Seq<Seq<BittideMessage>>, mask: Seq<bool>) -> Seq<
    Seq<BittideMessage>,
> {
    Seq::new(held.len(), |i: int| drain_link(held[i], mask[i]))
}

/// The words that the drain step forwards, by link.
pub open spec fn forwarded_words(held: Seq<Seq<BittideMessage>>, mask: Seq<bool>) -> Seq<
    Option<u32>,
> {
    Seq::new(held.len(), |i: int| forwarded(held[i], mask[i]))
}

/// The number of fillers in a burst.
pub open spec fn sync_count(burst: Seq<BittideMessage>) -> nat
    decreases burst.len(),
{
    if burst.len() == 0 {
        0
    } else {
        sync_count(burst.drop_last()) + if burst.last() is SyncMessage {
            1nat
        } else {
            0nat
        }
    }
}

/// The number of fillers in the bursts of all links.
pub open spec fn sync_total(bursts: Seq<Seq<BittideMessage>>) -> nat
    decreases bursts.len(),
{
    if bursts.len() == 0 {
        0
    } else {
        sync_total(bursts.drop_last()) + sync_count(bursts.last())
    }
}

/// The number of messages in the bursts of all links.
pub open spec fn message_total(bursts: Seq<Seq<BittideMessage>>) -> nat
    decreases bursts.len(),
{
    if bursts.len() == 0 {
        0
    } else {
        message_total(bursts.drop_last()) + bursts.last().len()
    }
}

/// A message counter after `n` more messages: it wraps at two to the 32nd.
pub open spec fn bumped(counter: u32, n: nat) -> int {
    if counter + n > u32::MAX {
        counter + n - 0x1_0000_0000
    } else {
        counter + n
    }
}

/// The number of links that are live and enabled.
pub open spec fn live_count(actives: Seq<bool>, mask: Seq<bool>) -> nat
    decreases actives.len(),
{
    if actives.len() == 0 {
        0
    } else {
        live_count(actives.drop_last(), mask.drop_last()) + if actives.last() && mask.last() {
            1nat
        } else {
            0nat
        }
    }
}

/// The levels shown in the telemetry: those of the first four links, and
/// zero where there are fewer.
pub open spec fn shown_levels(held: Seq<Seq<BittideMessage>>) -> Seq<u32> {
    Seq::new(
        4,
        |i: int|
            if i < held.len() {
                held[i].len() as u32
            } else {
                0u32
            },
    )
}

/// The result of a tick that got past the fill step: a word refused at
/// staging is reported first, then a correction that could not be applied.
pub open spec fn tick_result(
    staging: Result<(), BittideChannelControlError>,
    controlled: bool,
) -> Result<(), BittideChannelControlError> {
    if staging is Err {
        staging
    } else if !controlled {
        Err(BittideChannelControlError::FrequenceControllerError)
    } else {
        Ok(())
    }
}

/// The buffers after the node's side of a tick: filled, and drained unless
/// the fill step ran out of room.
pub open spec fn tick_buffers(
    held: Seq<Seq<BittideMessage>>,
    mask: Seq<bool>,
    bursts: Seq<Seq<BittideMessage>>,
    capacity: int,
) -> Seq<Seq<BittideMessage>> {
    if first_overflow(held, mask, bursts, capacity, 0) < held.len() {
        filled_buffers(held, mask, bursts, capacity)
    } else {
        drained_buffers(filled_buffers(held, mask, bursts, capacity), mask)
    }
}

/// The buffers after a row of ticks, given what the links deliver in each.
pub open spec fn run_ticks(
    held: Seq<Seq<BittideMessage>>,
    mask: Seq<bool>,
    deliveries: Seq<Seq<Seq<BittideMessage>>>,
    capacity: int,
) -> Seq<Seq<BittideMessage>>
    decreases deliveries.len(),
{
    if deliveries.len() == 0 {
        held
    } else {
        run_ticks(
            tick_buffers(held, mask, deliveries[0], capacity),
            mask,
            deliveries.drop_first(),
            capacity,
        )
    }
}

/// Counts the fillers and the data messages of one burst.
pub fn tally(burst: &heapless::Vec<BittideMessage, 4>) -> (counts: (usize, usize))
    ensures
        counts.0 == sync_count(burst_items(*burst)),
        counts.0 + counts.1 == burst_items(*burst).len(),
        counts.0 + counts.1 <= 4,
{
    let n: usize = burst_len(burst);
    let ghost items = burst_items(*burst);
    let mut syncs: usize = 0;
    let mut j: usize = 0;
    while j < n
        invariant
            j <= n <= 4,
            n == items.len(),
            items == burst_items(*burst),
            syncs == sync_count(items.take(j as int)),
            syncs <= j,
        decreases n - j,
    {
        proof {
            assert(items.take(j + 1).drop_last() =~= items.take(j as int));
        }
        match burst_get(burst, j) {
            BittideMessage::SyncMessage => {
                syncs = syncs + 1;
            },
            BittideMessage::CommMessage { neighbor: _, data: _ } => {},
        }
        j = j + 1;
    }
    proof {
        assert(items.take(n as int) =~= items);
    }
    (syncs, n - syncs)
}

/// Adds `n` to a message counter, wrapping at two to the 32nd.
pub fn bump(counter: u32, n: usize) -> (next: u32)
    requires
        n <= u32::MAX,
    ensures
        next == bumped(counter, n as nat),
{
    let wide: u64 = counter as u64 + n as u64;
    if wide > u32::MAX as u64 {
        (wide - 0x1_0000_0000) as u32
    } else {
        wide as u32
    }
}

/// Counts the links that are live and enabled: the number of neighbours
/// that the frequency controller is to assume.
pub fn live_links<const DEGREE: usize>(actives: &[bool; DEGREE], mask: &[bool; DEGREE]) -> (count:
    usize)
    ensures
        count == live_count(actives@, mask@),
        count <= DEGREE,
{
    let mut count: usize = 0;
    let mut i: usize = 0;
    while i < DEGREE
        invariant
            i <= DEGREE,
            count <= i,
            count == live_count(actives@.take(i as int), mask@.take(i as int)),
        decreases DEGREE - i,
    {
        proof {
            assert(actives@.take(i + 1).drop_last() =~= actives@.take(i as int));
            assert(mask@.take(i + 1).drop_last() =~= mask@.take(i as int));
        }
        if actives[i] && mask[i] {
            count = count + 1;
        }
        i = i + 1;
    }
    proof {
        assert(actives@.take(DEGREE as int) =~= actives@);
        assert(mask@.take(DEGREE as int) =~= mask@);
    }
    count
}

/// Puts the outcome of staging and of frequency control together.
pub fn conclude(staging: Result<(), BittideChannelControlError>, controlled: bool) -> (r: Result<
    (),
    BittideChannelControlError,
>)
    ensures
        r == tick_result(staging, controlled),
{
    match staging {
        Err(e) => Err(e),
        Ok(_) => if controlled {
            Ok(())
        } else {
            Err(BittideChannelControlError::FrequenceControllerError)
        },
    }
}

/// What a channel controller holds, as far as its ticks are specified.
pub struct ChannelState {
    /// The messages in each elastic buffer, oldest first.
    pub buffers: Seq<Seq<BittideMessage>>,
    /// Which links take part.
    pub link_mask: Seq<bool>,
    /// The telemetry.
    pub debug_info: BittideChannelControlDebugInfo,
    /// The number of neighbours that the frequency controller assumes.
    pub degree: nat,
}

/// The channel controller of a node with `DEGREE` links and elastic buffers
/// of capacity `B`, over a frequency controller `F`, a link transport `L`
/// and a local mailbox `FIFO`.
pub struct BittideChannelControl<F, const B: usize, L, const DEGREE: usize, FIFO> {
    frequency_controller: F,
    links: L,
    link_mask: [bool; DEGREE],
    sio_fifo: FIFO,
    tide_fifos: [BittideFifo<B>; DEGREE],
    debug_info: BittideChannelControlDebugInfo,
}

/// The contents of a row of elastic buffers.
pub open spec fn contents<const B: usize, const DEGREE: usize>(
    fifos: [BittideFifo<B>; DEGREE],
) -> Seq<Seq<BittideMessage>> {
    Seq::new(DEGREE as nat, |i: int| fifos@[i]@)
}

/// The messages in a row of bursts.
pub open spec fn bursts_of<const DEGREE: usize>(
    bursts: [heapless::Vec<BittideMessage, 4>; DEGREE],
) -> Seq<Seq<BittideMessage>> {
    Seq::new(DEGREE as nat, |i: int| burst_items(bursts@[i]))
}

/// No buffer holds more than `capacity`.
pub open spec fn within_capacity(held: Seq<Seq<BittideMessage>>, capacity: int) -> bool {
    forall|i: int| 0 <= i < held.len() ==> (#[trigger] held[i]).len() <= capacity
}

impl<F: FrequencyController<B>, const B: usize, L, const DEGREE: usize, FIFO> View for BittideChannelControl<
    F,
    B,
    L,
    DEGREE,
    FIFO,
> {
    type V = ChannelState;

    closed spec fn view(&self) -> ChannelState {
        ChannelState {
            buffers: contents(self.tide_fifos),
            link_mask: self.link_mask@,
            debug_info: self.debug_info,
            degree: self.frequency_controller.degree(),
        }
    }
}

impl<F, const B: usize, L, const DEGREE: usize, FIFO> BittideChannelControl<F, B, L, DEGREE, FIFO>
where
    F: FrequencyController<B>,
    L: Links<DEGREE>,
    FIFO: Fifo,
 {
    /// The controller is sound: there is a buffer and a mask bit per link,
    /// no buffer is over capacity, a link index fits the neighbour field of
    /// a word, and all buffers together never hold more than the
    /// fixed-point format can count.
    pub open spec fn wf(&self) -> bool {
        &&& self@.buffers.len() == DEGREE
        &&& self@.link_mask.len() == DEGREE
        &&& within_capacity(self@.buffers, B as int)
        &&& DEGREE <= 8
        &&& DEGREE * B <= MAX_WHOLE
    }

    /// A controller over the given parts, with empty telemetry.
    pub fn new(
        frequency_controller: F,
        links: L,
        link_mask: [bool; DEGREE],
        sio_fifo: FIFO,
        tide_fifos: [BittideFifo<B>; DEGREE],
    ) -> (control: Self)
        requires
            DEGREE <= 8,
            DEGREE * B <= MAX_WHOLE,
            forall|i: int| 0 <= i < DEGREE ==> (#[trigger] tide_fifos@[i]).wf(),
        ensures
            control.wf(),
            control@.buffers == contents(tide_fifos),
            control@.link_mask == link_mask@,
            control@.degree == frequency_controller.degree() && control.controller() == frequency_controller,
            control@.debug_info.buffer_levels@ == seq![0u32, 0u32, 0u32, 0u32],
            control@.debug_info.rx_sync_message_counter == 0,
            control@.debug_info.rx_comm_message_counter == 0,
            control@.debug_info.last_error == 0,
    {
        Self {
            frequency_controller,
            links,
            link_mask,
            sio_fifo,
            tide_fifos,
            debug_info: BittideChannelControlDebugInfo::default(),
        }
    }

    /// A controller over the given parts in which every link takes part.
    pub fn unmasked(
        frequency_controller: F,
        links: L,
        sio_fifo: FIFO,
        tide_fifos: [BittideFifo<B>; DEGREE],
    ) -> (control: Self)
        requires
            DEGREE <= 8,
            DEGREE * B <= MAX_WHOLE,
            forall|i: int| 0 <= i < DEGREE ==> (#[trigger] tide_fifos@[i]).wf(),
        ensures
            control.wf(),
            control@.buffers == contents(tide_fifos),
            forall|i: int| 0 <= i < DEGREE ==> control@.link_mask[i],
            control@.degree == frequency_controller.degree() && control.controller() == frequency_controller,
            control@.debug_info.buffer_levels@ == seq![0u32, 0u32, 0u32, 0u32],
            control@.debug_info.rx_sync_message_counter == 0,
            control@.debug_info.rx_comm_message_counter == 0,
            control@.debug_info.last_error == 0,
    {
        Self::new(frequency_controller, links, [true; DEGREE], sio_fifo, tide_fifos)
    }

    /// The telemetry.
    pub fn debug(&self) -> (info: &BittideChannelControlDebugInfo)
        ensures
            *info == self@.debug_info,
    {
        &self.debug_info
    }

    /// The telemetry of the frequency controller.
    pub fn frequency_controller_debug(&self) -> (d: F::Debug)
        ensures
            d == self.controller().telemetry(),
    {
        self.frequency_controller.debug()
    }

    /// The frequency controller that the channel controller drives.
    pub closed spec fn controller(&self) -> F {
        self.frequency_controller
    }

    /// The degree in the view is that of the frequency controller.
    pub proof fn lemma_controller_degree(&self)
        ensures
            self@.degree == self.controller().degree(),
    {
    }

    /// The level of every buffer.
    pub fn buffer_levels(&self) -> (levels: [usize; DEGREE])
        requires
            self.wf(),
        ensures
            forall|i: int| 0 <= i < DEGREE ==> levels@[i] == self@.buffers[i].len(),
            levels_total(levels@) <= DEGREE * B,
    {
        let mut levels = [0usize; DEGREE];
        let mut i: usize = 0;
        while i < DEGREE
            invariant
                i <= DEGREE,
                self.wf(),
                forall|j: int| 0 <= j < i ==> levels@[j] == self@.buffers[j].len(),
                forall|j: int| i <= j < DEGREE ==> levels@[j] == 0,
            decreases DEGREE - i,
        {
            assert(self@.buffers[i as int].len() <= B);
            levels[i] = self.tide_fifos[i].buffer_levels();
            i = i + 1;
        }
        proof {
            assert forall|j: int| 0 <= j < levels@.len() implies levels@[j] <= B by {
                assert(self@.buffers[j].len() <= B);
            }
            lemma_levels_total_bound(levels@, B as int);
        }
        levels
    }

    /// The receive step: counts the fillers and data messages that the links
    /// delivered, then files the burst of every enabled link in its buffer,
    /// link by link. It fails, and ends there, when a buffer is full.
    pub fn receive(&mut self, bursts: &[heapless::Vec<BittideMessage, 4>; DEGREE]) -> (r: Result<
        (),
        BittideChannelControlError,
    >)
        requires
            old(self).wf(),
        ensures
            final(self).wf(),
            final(self)@.link_mask == old(self)@.link_mask,
            final(self)@.degree == old(self)@.degree,
            final(self).controller() == old(self).controller(),
            forall|i: int| 0 <= i < DEGREE ==> (#[trigger] bursts_of(*bursts)[i]).len() <= BURST,
            final(self)@.buffers == filled_buffers(
                old(self)@.buffers,
                old(self)@.link_mask,
                bursts_of(*bursts),
                B as int,
            ),
            r is Err <==> first_overflow(
                old(self)@.buffers,
                old(self)@.link_mask,
                bursts_of(*bursts),
                B as int,
                0,
            ) < DEGREE,
            r is Err ==> r == Err::<(), BittideChannelControlError>(
                BittideChannelControlError::TideFifoFull,
            ),
            final(self)@.debug_info.rx_sync_message_counter == bumped(
                old(self)@.debug_info.rx_sync_message_counter,
                sync_total(bursts_of(*bursts)),
            ),
            final(self)@.debug_info.rx_comm_message_counter == bumped(
                old(self)@.debug_info.rx_comm_message_counter,
                (message_total(bursts_of(*bursts)) - sync_total(bursts_of(*bursts))) as nat,
            ),
            final(self)@.debug_info.buffer_levels == old(self)@.debug_info.buffer_levels,
            final(self)@.debug_info.last_error == old(self)@.debug_info.last_error,
    {
        let ghost before = self@;
        let ghost arrived = bursts_of(*bursts);
        let mut syncs: usize = 0;
        let mut comms: usize = 0;
        let mut i: usize = 0;
        while i < DEGREE
            invariant
                i <= DEGREE <= 8,
                arrived == bursts_of(*bursts),
                syncs == sync_total(arrived.take(i as int)),
                syncs + comms == message_total(arrived.take(i as int)),
                syncs + comms <= 4 * i,
                forall|j: int| 0 <= j < i ==> (#[trigger] arrived[j]).len() <= BURST,
            decreases DEGREE - i,
        {
            proof {
                assert(arrived.take(i + 1).drop_last() =~= arrived.take(i as int));
            }
            let counts = tally(&bursts[i]);
            syncs = syncs + counts.0;
            comms = comms + counts.1;
            i = i + 1;
        }
        proof {
            assert(arrived.take(DEGREE as int) =~= arrived);
        }
        self.debug_info.rx_sync_message_counter = bump(
            self.debug_info.rx_sync_message_counter,
            syncs,
        );
        self.debug_info.rx_comm_message_counter = bump(
            self.debug_info.rx_comm_message_counter,
            comms,
        );

        let mut i: usize = 0;
        while i < DEGREE
            invariant
                i <= DEGREE <= 8,
                DEGREE * B <= MAX_WHOLE,
                before == old(self)@,
                before.buffers.len() == DEGREE,
                before.link_mask.len() == DEGREE,
                within_capacity(before.buffers, B as int),
                arrived == bursts_of(*bursts),
                self@.degree == before.degree,
                self.controller() == old(self).controller(),
                forall|j: int| 0 <= j < DEGREE ==> (#[trigger] arrived[j]).len() <= BURST,
                self@.link_mask == before.link_mask,
                self.debug_info.rx_sync_message_counter == bumped(
                    before.debug_info.rx_sync_message_counter,
                    sync_total(arrived),
                ),
                self.debug_info.rx_comm_message_counter == bumped(
                    before.debug_info.rx_comm_message_counter,
                    (message_total(arrived) - sync_total(arrived)) as nat,
                ),
                self.debug_info.buffer_levels == before.debug_info.buffer_levels,
                self.debug_info.last_error == before.debug_info.last_error,
                self@.buffers.len() == DEGREE,
                within_capacity(self@.buffers, B as int),
                first_overflow(before.buffers, before.link_mask, arrived, B as int, 0)
                    == first_overflow(before.buffers, before.link_mask, arrived, B as int, i as int),
                forall|j: int|
                    0 <= j < i ==> self@.buffers[j] == fill_link(
                        before.buffers[j],
                        before.link_mask[j],
                        arrived[j],
                        j as u8,
                        B as int,
                    ),
                forall|j: int| i <= j < DEGREE ==> self@.buffers[j] == before.buffers[j],
            decreases DEGREE - i,
        {
            if self.link_mask[i] {
                let ghost held = self@.buffers;
                assert(held[i as int].len() <= B);
                let filled = self.tide_fifos[i].absorb(&bursts[i], i as u8);
                proof {
                    assert(self@.buffers =~= held.update(i as int, self.tide_fifos@[i as int]@));
                }
                match filled {
                    Ok(_) => {},
                    Err(e) => {
                        proof {
                            let stop = first_overflow(
                                before.buffers,
                                before.link_mask,
                                arrived,
                                B as int,
                                0,
                            );
                            assert(stop == i);
                            assert(self@.buffers =~= filled_buffers(
                                before.buffers,
                                before.link_mask,
                                arrived,
                                B as int,
                            ));
                        }
                        return Err(e);
                    },
                }
            }
            i = i + 1;
        }
        proof {
            assert(self@.buffers =~= filled_buffers(
                before.buffers,
                before.link_mask,
                arrived,
                B as int,
            ));
        }
        Ok(())
    }

    /// The drain step: takes the oldest message out of the buffer of every
    /// enabled link and returns, by link, the words to forward to the local
    /// consumer. An empty buffer is no error.
    pub fn release(&mut self) -> (words: [Option<u32>; DEGREE])
        requires
            old(self).wf(),
        ensures
            final(self).wf(),
            final(self)@.link_mask == old(self)@.link_mask,
            final(self)@.debug_info == old(self)@.debug_info,
            final(self)@.degree == old(self)@.degree,
            final(self).controller() == old(self).controller(),
            final(self)@.buffers == drained_buffers(old(self)@.buffers, old(self)@.link_mask),
            words@ == forwarded_words(old(self)@.buffers, old(self)@.link_mask),
    {
        let ghost before = self@;
        let mut words: [Option<u32>; DEGREE] = [None; DEGREE];
        let mut i: usize = 0;
        while i < DEGREE
            invariant
                i <= DEGREE <= 8,
                DEGREE * B <= MAX_WHOLE,
                before == old(self)@,
                before.buffers.len() == DEGREE,
                before.link_mask.len() == DEGREE,
                self@.link_mask == before.link_mask,
                self@.debug_info == before.debug_info,
                self@.degree == before.degree,
                self.controller() == old(self).controller(),
                self@.buffers.len() == DEGREE,
                within_capacity(self@.buffers, B as int),
                forall|j: int|
                    0 <= j < i ==> self@.buffers[j] == drain_link(
                        before.buffers[j],
                        before.link_mask[j],
                    ),
                forall|j: int| i <= j < DEGREE ==> self@.buffers[j] == before.buffers[j],
                forall|j: int|
                    0 <= j < i ==> words@[j] == forwarded(before.buffers[j], before.link_mask[j]),
                forall|j: int| i <= j < DEGREE ==> words@[j] == None::<u32>,
            decreases DEGREE - i,
        {
            if self.link_mask[i] {
                let ghost held = self@.buffers;
                assert(held[i as int].len() <= B);
                let word = self.tide_fifos[i].release();
                proof {
                    assert(self@.buffers =~= held.update(i as int, self.tide_fifos@[i as int]@));
                }
                words[i] = word;
            }
            i = i + 1;
        }
        proof {
            assert(self@.buffers =~= drained_buffers(before.buffers, before.link_mask));
            assert(words@ =~= forwarded_words(before.buffers, before.link_mask));
        }
        words
    }

    /// Writes the buffer levels into the telemetry.
    pub fn record_levels(&mut self, levels: &[usize; DEGREE])
        requires
            old(self).wf(),
            forall|i: int| 0 <= i < DEGREE ==> levels@[i] == old(self)@.buffers[i].len(),
        ensures
            final(self).wf(),
            final(self)@.buffers == old(self)@.buffers,
            final(self)@.link_mask == old(self)@.link_mask,
            final(self)@.degree == old(self)@.degree,
            final(self).controller() == old(self).controller(),
            final(self)@.debug_info.buffer_levels@ == shown_levels(old(self)@.buffers),
            final(self)@.debug_info.rx_sync_message_counter == old(
                self,
            )@.debug_info.rx_sync_message_counter,
            final(self)@.debug_info.rx_comm_message_counter == old(
                self,
            )@.debug_info.rx_comm_message_counter,
            final(self)@.debug_info.last_error == old(self)@.debug_info.last_error,
    {
        let mut shown: [u32; 4] = [0, 0, 0, 0];
        let mut i: usize = 0;
        while i < 4
            invariant
                i <= 4,
                self.wf(),
                DEGREE * B <= MAX_WHOLE,
                forall|j: int| 0 <= j < DEGREE ==> levels@[j] == self@.buffers[j].len(),
                forall|j: int| 0 <= j < i ==> shown@[j] == shown_levels(self@.buffers)[j],
                forall|j: int| i <= j < 4 ==> shown@[j] == 0u32,
            decreases 4 - i,
        {
            if i < DEGREE {
                assert(self@.buffers[i as int].len() <= B);
                assert(B <= MAX_WHOLE) by (nonlinear_arith)
                    requires
                        DEGREE * B <= MAX_WHOLE,
                        DEGREE >= 1,
                ;
                shown[i] = levels[i] as u32;
            }
            i = i + 1;
        }
        assert(shown@ =~= shown_levels(self@.buffers));
        self.debug_info.buffer_levels = shown;
    }

    /// The part of a tick that the node decides alone, once the links have
    /// delivered: the receive step, the drain step and the record of the
    /// levels. It returns, by link, the words to forward to the local
    /// consumer. Where a buffer is full the tick ends after the receive
    /// step: nothing is drained and the recorded levels stay as they were.
    pub fn advance(&mut self, bursts: &[heapless::Vec<BittideMessage, 4>; DEGREE]) -> (r: Result<
        [Option<u32>; DEGREE],
        BittideChannelControlError,
    >)
        requires
            old(self).wf(),
        ensures
            final(self).wf(),
            final(self)@.link_mask == old(self)@.link_mask,
            final(self)@.degree == old(self)@.degree,
            final(self).controller() == old(self).controller(),
            forall|i: int| 0 <= i < DEGREE ==> (#[trigger] bursts_of(*bursts)[i]).len() <= BURST,
            final(self)@.buffers == tick_buffers(
                old(self)@.buffers,
                old(self)@.link_mask,
                bursts_of(*bursts),
                B as int,
            ),
            r is Err <==> first_overflow(
                old(self)@.buffers,
                old(self)@.link_mask,
                bursts_of(*bursts),
                B as int,
                0,
            ) < DEGREE,
            match r {
                Ok(words) => {
                    &&& final(self)@.buffers == drained_buffers(
                        filled_buffers(
                            old(self)@.buffers,
                            old(self)@.link_mask,
                            bursts_of(*bursts),
                            B as int,
                        ),
                        old(self)@.link_mask,
                    )
                    &&& words@ == forwarded_words(
                        filled_buffers(
                            old(self)@.buffers,
                            old(self)@.link_mask,
                            bursts_of(*bursts),
                            B as int,
                        ),
                        old(self)@.link_mask,
                    )
                    &&& final(self)@.debug_info.buffer_levels@ == shown_levels(
                        final(self)@.buffers,
                    )
                },
                Err(e) => {
                    &&& e == BittideChannelControlError::TideFifoFull
                    &&& final(self)@.buffers == filled_buffers(
                        old(self)@.buffers,
                        old(self)@.link_mask,
                        bursts_of(*bursts),
                        B as int,
                    )
                    &&& final(self)@.debug_info.buffer_levels == old(
                        self,
                    )@.debug_info.buffer_levels
                },
            },
            final(self)@.debug_info.rx_sync_message_counter == bumped(
                old(self)@.debug_info.rx_sync_message_counter,
                sync_total(bursts_of(*bursts)),
            ),
            final(self)@.debug_info.rx_comm_message_counter == bumped(
                old(self)@.debug_info.rx_comm_message_counter,
                (message_total(bursts_of(*bursts)) - sync_total(bursts_of(*bursts))) as nat,
            ),
            final(self)@.debug_info.last_error == old(self)@.debug_info.last_error,
    {
        match self.receive(bursts) {
            Ok(_) => {},
            Err(e) => {
                return Err(e);
            },
        }
        let words = self.release();
        let levels = self.buffer_levels();
        self.record_levels(&levels);
        Ok(words)
    }

    /// One tick. It must be called exactly once per tick interval and never
    /// blocks. In order: takes at most one word from the local producer and
    /// stages it; sends one message on every link, fillers where nothing is
    /// staged or the word was refused; files what the links delivered;
    /// drains one message per enabled buffer and forwards drained data to
    /// the local consumer; records the levels; tells the frequency
    /// controller how many enabled links are live and runs it on the
    /// levels. A word refused at staging does not stop the tick: it is
    /// reported at its end. A full buffer ends the tick at once. The code of
    /// the result goes into the telemetry.
    ///
    /// What is sent for a given user word is stated by `stage`, what the tick
    /// does to the buffers for given deliveries by `advance`, and its result
    /// by `conclude`. Whatever the links deliver: a disabled buffer is left
    /// alone, an enabled one loses at most one message and gains at most a
    /// burst, and a result code is never that of a decode error.
    pub fn interrupt(&mut self) -> (r: Result<(), BittideChannelControlError>)
        requires
            old(self).wf(),
        ensures
            final(self).wf(),
            final(self)@.link_mask == old(self)@.link_mask,
            final(self)@.debug_info.last_error == result_code(r),
            r != Err::<(), BittideChannelControlError>(BittideChannelControlError::DecodeError),
            forall|i: int|
                0 <= i < DEGREE && !old(self)@.link_mask[i] ==> final(self)@.buffers[i] == old(
                    self,
                )@.buffers[i],
            forall|i: int|
                0 <= i < DEGREE ==> old(self)@.buffers[i].len() - 1 <= (
                #[trigger] final(self)@.buffers[i]).len() <= old(self)@.buffers[i].len() + BURST,
            r == Err::<(), BittideChannelControlError>(BittideChannelControlError::TideFifoFull)
                ==> exists|i: int|
                0 <= i < DEGREE && old(self)@.link_mask[i] && final(self)@.buffers[i].len() == B,
            r != Err::<(), BittideChannelControlError>(BittideChannelControlError::TideFifoFull)
                ==> {
                &&& final(self)@.debug_info.buffer_levels@ == shown_levels(final(self)@.buffers)
                &&& final(self)@.degree <= DEGREE
            },
    {
        let r = self.interrupt_internal();
        self.debug_info.last_error = BittideChannelControlError::encode(r);
        r
    }

    fn interrupt_internal(&mut self) -> (r: Result<(), BittideChannelControlError>)
        requires
            old(self).wf(),
        ensures
            final(self).wf(),
            final(self)@.link_mask == old(self)@.link_mask,
            final(self)@.debug_info.last_error == old(self)@.debug_info.last_error,
            r != Err::<(), BittideChannelControlError>(BittideChannelControlError::DecodeError),
            forall|i: int|
                0 <= i < DEGREE && !old(self)@.link_mask[i] ==> final(self)@.buffers[i] == old(
                    self,
                )@.buffers[i],
            forall|i: int|
                0 <= i < DEGREE ==> old(self)@.buffers[i].len() - 1 <= (
                #[trigger] final(self)@.buffers[i]).len() <= old(self)@.buffers[i].len() + BURST,
            r == Err::<(), BittideChannelControlError>(BittideChannelControlError::TideFifoFull)
                ==> exists|i: int|
                0 <= i < DEGREE && old(self)@.link_mask[i] && final(self)@.buffers[i].len() == B,
            r != Err::<(), BittideChannelControlError>(BittideChannelControlError::TideFifoFull)
                ==> {
                &&& final(self)@.debug_info.buffer_levels@ == shown_levels(final(self)@.buffers)
                &&& final(self)@.degree <= DEGREE
            },
    {
        let ghost before = self@;
        let user_word = self.sio_fifo.read();
        let (messages, staging) = stage::<DEGREE>(user_word);
        self.links.write(messages);

        let bursts = self.links.read();
        let ghost arrived = bursts_of(bursts);
        proof {
            lemma_first_overflow(before.buffers, before.link_mask, arrived, B as int, 0);
        }
        let words = match self.advance(&bursts) {
            Ok(words) => words,
            Err(e) => {
                proof {
                    let stop = first_overflow(
                        before.buffers,
                        before.link_mask,
                        arrived,
                        B as int,
                        0,
                    );
                    assert(self@.buffers[stop].len() == B);
                }
                return Err(e);
            },
        };

        let ghost advanced = self@;
        let mut i: usize = 0;
        while i < DEGREE
            invariant
                i <= DEGREE,
                self.wf(),
                self@ == advanced,
            decreases DEGREE - i,
        {
            match words[i] {
                Some(word) => {
                    self.sio_fifo.write(word);
                },
                None => {},
            }
            i = i + 1;
        }

        let levels = self.buffer_levels();
        let actives = self.links.active_fifos();
        let current_degree = live_links(&actives, &self.link_mask);
        self.frequency_controller.set_degree(current_degree);
        proof {
            assert(current_degree * B <= DEGREE * B) by (nonlinear_arith)
                requires
                    current_degree <= DEGREE,
            ;
            assert(half_full(current_degree as int, B as int) <= MAX_WHOLE);
        }
        let controlled = self.frequency_controller.run(levels.as_slice());
        conclude(staging, controlled.is_ok())
    }
}

} // verus!
