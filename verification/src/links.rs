//! The boundary to the link transport and to the local mailbox, the bursts
//! that come over it, and the liveness of each link.

use vstd::prelude::*;
use crate::message::{BittideMessage, decoded, retagged};

verus! {

/// The most messages that one link hands over in one tick.
pub const BURST: usize = 4;

/// The number of silent ticks in a row after which a link counts as dead.
pub const NO_MESSAGE_LIMIT: usize = 3;

/// `heapless::Vec`: a vector that holds up to `N` items in place. Its
/// inside is not looked at here.
#[verifier::external_type_specification]
#[verifier::external_body]
#[verifier::reject_recursive_types(T)]
pub struct ExHeaplessVec<T, const N: usize>(heapless::Vec<T, N>);

/// What a `heapless::Vec` of messages holds: the messages of a burst, in
/// arrival order.
pub uninterp spec fn burst_items(burst: heapless::Vec<BittideMessage, 4>) -> Seq<BittideMessage>;

/// `heapless::Vec::new`: a burst without messages.
#[verifier::external_body]
pub(crate) fn burst_new() -> (burst: heapless::Vec<BittideMessage, 4>)
    ensures
        burst_items(burst) == Seq::<BittideMessage>::empty(),
{
    heapless::Vec::new()
}

/// `heapless::Vec::push`: the message goes behind the others while fewer
/// than four are held; a burst of four takes nothing. The result says
/// whether the message went in.
#[verifier::external_body]
pub(crate) fn burst_push(burst: &mut heapless::Vec<BittideMessage, 4>, message: BittideMessage) -> (pushed: bool)
    ensures
        pushed == (burst_items(*old(burst)).len() < 4),
        pushed ==> burst_items(*final(burst)) == burst_items(*old(burst)).push(message),
        !pushed ==> burst_items(*final(burst)) == burst_items(*old(burst)),
{
    burst.push(message).is_ok()
}

/// `heapless::Vec::len`: the number of messages in the burst, never more
/// than the four that the burst has room for.
#[verifier::external_body]
pub(crate) fn burst_len(burst: &heapless::Vec<BittideMessage, 4>) -> (n: usize)
    ensures
        n == burst_items(*burst).len(),
        n <= 4,
{
    burst.len()
}

/// `heapless::Vec::as_slice`, indexed: the message at place `i` of the burst.
#[verifier::external_body]
pub(crate) fn burst_get(burst: &heapless::Vec<BittideMessage, 4>, i: usize) -> (message:
    BittideMessage)
    requires
        i < burst_items(*burst).len(),
    ensures
        message == burst_items(*burst)[i as int],
{
    burst.as_slice()[i]
}

/// All hardware of all links of a device: one write and one read per link
/// and tick, neither of which blocks.
pub trait Links<const DEGREE: usize> {
    /// Sends one message on every link.
    fn write(&mut self, messages: [BittideMessage; DEGREE]);

    /// Takes what has arrived on every link since the last tick.
    fn read(&mut self) -> [heapless::Vec<BittideMessage, 4>; DEGREE];

    /// Which links have delivered anything lately.
    fn active_fifos(&self) -> [bool; DEGREE];
}

/// The one-word mailbox between the control core and the application.
pub trait Fifo {
    fn read(&mut self) -> Option<u32>;

    fn write(&mut self, data: u32);
}

/// The messages of a burst as the receiver on link `link` files them.
pub open spec fn filed(burst: Seq<BittideMessage>, link: u8) -> Seq<BittideMessage> {
    Seq::new(burst.len(), |j: int| retagged(burst[j], link))
}

/// The words polled from one link, decoded and filed under that link.
pub open spec fn decoded_burst(words: Seq<u32>, link: u8) -> Seq<BittideMessage> {
    Seq::new(words.len(), |j: int| retagged(decoded(words[j]), link))
}

/// Decodes the words that the polls of one link brought, in arrival order,
/// and files each data word under the link it came over.
pub fn decode_burst(words: &[u32], link: u8) -> (burst: heapless::Vec<BittideMessage, 4>)
    requires
        words@.len() <= BURST,
    ensures
        burst_items(burst) == decoded_burst(words@, link),
{
    let mut burst = burst_new();
    let mut j: usize = 0;
    while j < words.len()
        invariant
            j <= words@.len() <= 4,
            burst_items(burst) == decoded_burst(words@.take(j as int), link),
        decreases words@.len() - j,
    {
        let message = BittideMessage::deserialize(words[j]).received_on(link);
        let _ = burst_push(&mut burst, message);
        j = j + 1;
        assert(burst_items(burst) =~= decoded_burst(words@.take(j as int), link));
    }
    assert(words@.take(j as int) =~= words@);
    burst
}

/// Whatever the sender wrote, a filed data message names the link it came
/// over, and a filler stays a filler.
pub proof fn lemma_filed_neighbor(burst: Seq<BittideMessage>, link: u8, j: int)
    requires
        0 <= j < burst.len(),
    ensures
        filed(burst, link).len() == burst.len(),
        (filed(burst, link)[j] is SyncMessage) <==> (burst[j] is SyncMessage),
        filed(burst, link)[j] matches BittideMessage::CommMessage { neighbor, .. } ==> neighbor
            == link,
        burst[j] matches BittideMessage::CommMessage { data, .. } ==> filed(burst, link)[j]
            == (BittideMessage::CommMessage { neighbor: link, data }),
{
}

/// The silence counter of a link after one more tick in which `received`
/// messages came over it.
pub open spec fn counter_next(counter: usize, received: nat) -> usize {
    if received > 0 {
        0
    } else if counter < usize::MAX {
        (counter + 1) as usize
    } else {
        counter
    }
}

/// The silence counter after `ticks` ticks without any message.
pub open spec fn counter_after_silence(counter: usize, ticks: nat) -> usize
    decreases ticks,
{
    if ticks == 0 {
        counter
    } else {
        counter_after_silence(counter_next(counter, 0), (ticks - 1) as nat)
    }
}

/// A link is live while its silence counter is below the limit.
pub open spec fn is_active(counter: usize) -> bool {
    counter < NO_MESSAGE_LIMIT
}

/// Per link, the number of ticks in a row without a message.
pub struct LinkActivity<const DEGREE: usize> {
    no_msg_counters: [usize; DEGREE],
}

impl<const DEGREE: usize> View for LinkActivity<DEGREE> {
    type V = Seq<usize>;

    closed spec fn view(&self) -> Seq<usize> {
        self.no_msg_counters@
    }
}

impl<const DEGREE: usize> LinkActivity<DEGREE> {
    /// No link has been heard yet: every counter starts at the limit.
    pub fn new() -> (activity: Self)
        ensures
            activity@.len() == DEGREE,
            forall|i: int| 0 <= i < DEGREE ==> activity@[i] == NO_MESSAGE_LIMIT,
    {
        Self { no_msg_counters: [NO_MESSAGE_LIMIT; DEGREE] }
    }

    /// Notes how many messages link `link` delivered in this tick.
    pub fn record(&mut self, link: usize, received: usize)
        requires
            link < DEGREE,
        ensures
            final(self)@ == old(self)@.update(
                link as int,
                counter_next(old(self)@[link as int], received as nat),
            ),
    {
        let counter: usize = self.no_msg_counters[link];
        let next: usize = if received > 0 {
            0
        } else if counter < usize::MAX {
            counter + 1
        } else {
            counter
        };
        self.no_msg_counters[link] = next;
    }

    /// What one tick's polls of link `link` brought: decodes the words,
    /// files them under the link and notes whether the link was silent.
    pub fn read_link(&mut self, link: u8, words: &[u32]) -> (burst: heapless::Vec<
        BittideMessage,
        4,
    >)
        requires
            link < DEGREE,
            words@.len() <= BURST,
        ensures
            burst_items(burst) == decoded_burst(words@, link),
            final(self)@ == old(self)@.update(
                link as int,
                counter_next(old(self)@[link as int], words@.len()),
            ),
    {
        self.record(link as usize, words.len());
        decode_burst(words, link)
    }

    /// Which links are live.
    pub fn active_fifos(&self) -> (actives: [bool; DEGREE])
        ensures
            forall|i: int| 0 <= i < DEGREE ==> actives@[i] == is_active(self@[i]),
    {
        let mut actives = [false; DEGREE];
        let mut i: usize = 0;
        while i < DEGREE
            invariant
                i <= DEGREE,
                forall|j: int| 0 <= j < i ==> actives@[j] == is_active(self@[j]),
            decreases DEGREE - i,
        {
            actives[i] = self.no_msg_counters[i] < NO_MESSAGE_LIMIT;
            i = i + 1;
        }
        actives
    }
}

/// A link that stays silent for as many ticks as the limit counts as dead,
/// wherever its counter stood before, and stays dead while the silence lasts.
pub proof fn lemma_silence_deactivates(counter: usize, ticks: nat)
    requires
        ticks >= NO_MESSAGE_LIMIT,
    ensures
        !is_active(counter_after_silence(counter, ticks)),
{
    lemma_silence_counts(counter, ticks);
}

/// Silence adds one to the counter per tick until the counter saturates.
pub proof fn lemma_silence_counts(counter: usize, ticks: nat)
    ensures
        counter + ticks <= usize::MAX ==> counter_after_silence(counter, ticks) == counter + ticks,
        counter + ticks > usize::MAX ==> counter_after_silence(counter, ticks) == usize::MAX,
    decreases ticks,
{
    if ticks > 0 {
        lemma_silence_counts(counter_next(counter, 0), (ticks - 1) as nat);
    }
}

/// One message is enough to bring a link back to life.
pub proof fn lemma_message_activates(counter: usize, received: nat)
    requires
        received > 0,
    ensures
        is_active(counter_next(counter, received)),
{
}

} // verus!
