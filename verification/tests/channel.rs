use std::cell::RefCell;
use std::collections::VecDeque;
use std::rc::Rc;

use bittide::channel::{
    bump, conclude, live_links, stage, tally, BittideChannelControl,
};
use bittide::error::BittideChannelControlError;
use bittide::fifo::BittideFifo;
use bittide::fixed_point::I16F16;
use bittide::links::{decode_burst, Fifo, LinkActivity, Links};
use bittide::message::BittideMessage;
use bittide::pid::PidSettings;
use bittide::si5351::{Si5351, Si5351Controller};

type Burst = heapless::Vec<BittideMessage, 4>;

struct ScriptedLinks {
    written: Rc<RefCell<Vec<[BittideMessage; 4]>>>,
    incoming: VecDeque<[Vec<u32>; 4]>,
    activity: LinkActivity<4>,
}

impl Links<4> for ScriptedLinks {
    fn write(&mut self, messages: [BittideMessage; 4]) {
        self.written.borrow_mut().push(messages);
    }

    fn read(&mut self) -> [Burst; 4] {
        let words = self.incoming.pop_front().unwrap_or_default();
        let mut bursts: [Burst; 4] = [Burst::new(), Burst::new(), Burst::new(), Burst::new()];
        for link in 0..4 {
            // the transport leaves the sender's neighbour field as it came
            let mut burst = Burst::new();
            for &word in words[link].iter() {
                burst.push(BittideMessage::deserialize(word)).unwrap();
            }
            self.activity.record(link, burst.len());
            bursts[link] = burst;
        }
        bursts
    }

    fn active_fifos(&self) -> [bool; 4] {
        self.activity.active_fifos()
    }
}

struct Mailbox {
    inbox: VecDeque<u32>,
    outbox: Rc<RefCell<Vec<u32>>>,
}

impl Fifo for Mailbox {
    fn read(&mut self) -> Option<u32> {
        self.inbox.pop_front()
    }

    fn write(&mut self, data: u32) {
        self.outbox.borrow_mut().push(data);
    }
}

struct RecordingSi {
    fracs: Rc<RefCell<Vec<u32>>>,
    fail: bool,
}

impl Si5351 for RecordingSi {
    type Error = ();

    fn set_pll_frac(&mut self, frac: u32) -> Result<(), ()> {
        self.fracs.borrow_mut().push(frac);
        if self.fail {
            Err(())
        } else {
            Ok(())
        }
    }
}

struct Rig<const B: usize> {
    control: BittideChannelControl<Si5351Controller<RecordingSi, B>, B, ScriptedLinks, 4, Mailbox>,
    written: Rc<RefCell<Vec<[BittideMessage; 4]>>>,
    outbox: Rc<RefCell<Vec<u32>>>,
    fracs: Rc<RefCell<Vec<u32>>>,
}

fn zero_gains() -> PidSettings {
    PidSettings {
        kp: I16F16::from_bits(0),
        ki: I16F16::from_bits(0),
        kd: I16F16::from_bits(0),
    }
}

fn rig<const B: usize>(
    mask: [bool; 4],
    inbox: Vec<u32>,
    incoming: Vec<[Vec<u32>; 4]>,
    fail: bool,
    gains: PidSettings,
) -> Rig<B> {
    let written = Rc::new(RefCell::new(Vec::new()));
    let outbox = Rc::new(RefCell::new(Vec::new()));
    let fracs = Rc::new(RefCell::new(Vec::new()));
    let links = ScriptedLinks {
        written: written.clone(),
        incoming: incoming.into_iter().collect(),
        activity: LinkActivity::new(),
    };
    let mailbox = Mailbox { inbox: inbox.into_iter().collect(), outbox: outbox.clone() };
    let si = RecordingSi { fracs: fracs.clone(), fail };
    let controller = Si5351Controller::<RecordingSi, B>::new(si, 4, gains);
    let fifos = [
        BittideFifo::<B>::new(),
        BittideFifo::<B>::new(),
        BittideFifo::<B>::new(),
        BittideFifo::<B>::new(),
    ];
    Rig {
        control: BittideChannelControl::new(controller, links, mask, mailbox, fifos),
        written,
        outbox,
        fracs,
    }
}

const SYNC: BittideMessage = BittideMessage::SyncMessage;

fn levels<const B: usize>(rig: &Rig<B>) -> [usize; 4] {
    rig.control.buffer_levels()
}

#[test]
fn scenario_one_neighbor_sends_data() {
    // Link 0 delivers one data word per tick; the sender wrote neighbour 3.
    let word = BittideMessage::CommMessage { neighbor: 3, data: 42 }.serialize();
    let ticks = 40;
    let incoming: Vec<[Vec<u32>; 4]> =
        (0..ticks).map(|_| [vec![word], vec![], vec![], vec![]]).collect();
    let mut rig = rig::<64>([true; 4], vec![], incoming, false, zero_gains());
    assert_eq!(levels(&rig), [32, 32, 32, 32]);

    assert_eq!(rig.control.interrupt(), Ok(()));
    assert_eq!(levels(&rig), [32, 31, 31, 31]);
    assert_eq!(rig.control.debug().buffer_levels, [32, 31, 31, 31]);
    assert_eq!(rig.control.interrupt(), Ok(()));
    assert_eq!(levels(&rig), [32, 30, 30, 30]);
    assert_eq!(rig.control.interrupt(), Ok(()));
    assert_eq!(levels(&rig), [32, 29, 29, 29]);
    // so far only fillers were drained
    assert!(rig.outbox.borrow().is_empty());
    assert_eq!(rig.control.debug().rx_comm_message_counter, 3);
    assert_eq!(rig.control.debug().rx_sync_message_counter, 0);

    for _ in 3..32 {
        assert_eq!(rig.control.interrupt(), Ok(()));
    }
    assert_eq!(levels(&rig), [32, 0, 0, 0]);
    assert!(rig.outbox.borrow().is_empty());

    // tick 33 drains the first data word, filed under link 0
    assert_eq!(rig.control.interrupt(), Ok(()));
    let forwarded = BittideMessage::CommMessage { neighbor: 0, data: 42 }.serialize();
    assert_eq!(forwarded, 42 << 4);
    assert_eq!(*rig.outbox.borrow(), vec![forwarded]);
    // the silent links stay empty, which is no error
    assert_eq!(levels(&rig), [32, 0, 0, 0]);
    assert_eq!(rig.control.interrupt(), Ok(()));
    assert_eq!(*rig.outbox.borrow(), vec![forwarded, forwarded]);
    assert_eq!(levels(&rig), [32, 0, 0, 0]);
    assert_eq!(rig.control.debug().last_error, 0);

    // every tick sent fillers on all four links
    assert_eq!(rig.written.borrow().len(), 34);
    assert!(rig.written.borrow().iter().all(|m| *m == [SYNC; 4]));
}

#[test]
fn scenario_sync_word_from_the_producer() {
    let mut rig = rig::<64>([true; 4], vec![1], vec![], false, zero_gains());
    assert_eq!(
        rig.control.interrupt(),
        Err(BittideChannelControlError::SyncMessageFromUserCode)
    );
    assert_eq!(*rig.written.borrow(), vec![[SYNC; 4]]);
    assert_eq!(rig.control.debug().last_error, 2);
    // the rest of the tick went on
    assert_eq!(levels(&rig), [31, 31, 31, 31]);
}

#[test]
fn scenario_invalid_neighbor_from_the_producer() {
    let word = BittideMessage::CommMessage { neighbor: 5, data: 1 }.serialize();
    let mut rig = rig::<64>([true; 4], vec![word], vec![], false, zero_gains());
    assert_eq!(rig.control.interrupt(), Err(BittideChannelControlError::InvalidNeigbor));
    assert_eq!(*rig.written.borrow(), vec![[SYNC; 4]]);
    assert_eq!(rig.control.debug().last_error, 3);
}

#[test]
fn neighbor_nine_is_masked_to_one_on_the_wire() {
    let word = BittideMessage::CommMessage { neighbor: 9, data: 1 }.serialize();
    let mut rig = rig::<64>([true; 4], vec![word], vec![], false, zero_gains());
    assert_eq!(rig.control.interrupt(), Ok(()));
    let sent = BittideMessage::CommMessage { neighbor: 1, data: 1 };
    assert_eq!(*rig.written.borrow(), vec![[SYNC, sent, SYNC, SYNC]]);
}

#[test]
fn user_word_goes_out_on_its_link_only() {
    let word = BittideMessage::CommMessage { neighbor: 2, data: 7 }.serialize();
    let mut rig = rig::<64>([true; 4], vec![word], vec![], false, zero_gains());
    assert_eq!(rig.control.interrupt(), Ok(()));
    assert_eq!(rig.control.interrupt(), Ok(()));
    let sent = BittideMessage::CommMessage { neighbor: 2, data: 7 };
    assert_eq!(*rig.written.borrow(), vec![[SYNC, SYNC, sent, SYNC], [SYNC; 4]]);
}

#[test]
fn full_buffer_ends_the_tick() {
    // capacity 2, prefilled with 1: two words on link 1 overflow it
    let incoming = vec![[vec![16], vec![16, 32], vec![16], vec![]]];
    let mut rig = rig::<2>([true; 4], vec![], incoming, false, zero_gains());
    assert_eq!(rig.control.interrupt(), Err(BittideChannelControlError::TideFifoFull));
    // link 0 was filled, link 1 is full, links 2 and 3 were not reached,
    // and nothing was drained
    assert_eq!(levels(&rig), [2, 2, 1, 1]);
    assert_eq!(rig.control.debug().last_error, 4);
    assert_eq!(rig.control.debug().rx_comm_message_counter, 4);
    assert!(rig.fracs.borrow().is_empty());
    assert!(rig.outbox.borrow().is_empty());
}

#[test]
fn frequency_controller_failure_is_reported_after_the_tick() {
    let incoming = vec![[vec![1], vec![], vec![], vec![]]];
    let mut rig = rig::<64>([true; 4], vec![], incoming, true, zero_gains());
    assert_eq!(
        rig.control.interrupt(),
        Err(BittideChannelControlError::FrequenceControllerError)
    );
    assert_eq!(levels(&rig), [32, 31, 31, 31]);
    assert_eq!(rig.control.debug().buffer_levels, [32, 31, 31, 31]);
    assert_eq!(rig.control.debug().last_error, 5);
    assert_eq!(rig.control.debug().rx_sync_message_counter, 1);
    assert_eq!(rig.fracs.borrow().len(), 1);
}

#[test]
fn disabled_links_are_left_alone() {
    let incoming = vec![[vec![16], vec![16], vec![16], vec![16]]];
    let mut rig = rig::<64>([true, false, true, false], vec![], incoming, false, zero_gains());
    assert_eq!(rig.control.interrupt(), Ok(()));
    assert_eq!(levels(&rig), [32, 32, 32, 32]);
    assert_eq!(rig.control.interrupt(), Ok(()));
    assert_eq!(levels(&rig), [31, 32, 31, 32]);
    // the counters see every delivered message
    assert_eq!(rig.control.debug().rx_comm_message_counter, 4);
}

#[test]
fn frequency_target_follows_the_live_links() {
    // kp = 1: the correction is the error itself
    let gains = PidSettings {
        kp: I16F16::from_bits(0x1_0000),
        ki: I16F16::from_bits(0),
        kd: I16F16::from_bits(0),
    };
    let incoming = vec![[vec![1], vec![1], vec![], vec![]]];
    let mut rig = rig::<64>([true; 4], vec![], incoming, false, gains);
    assert_eq!(rig.control.interrupt(), Ok(()));
    // two live links: target 64, levels 32 + 32 + 31 + 31 = 126, error -62
    // divider 0x7ffff + 62 * 65536 = 4587519, offset 4587519 >> 12 = 1119
    assert_eq!(*rig.fracs.borrow(), vec![0x7_ffff + 1119]);
}

#[test]
fn stage_decides_the_outbound_slots() {
    let (messages, verdict) = stage::<4>(None);
    assert_eq!(messages, [SYNC; 4]);
    assert_eq!(verdict, Ok(()));
    let (messages, verdict) = stage::<4>(Some(1));
    assert_eq!(messages, [SYNC; 4]);
    assert_eq!(verdict, Err(BittideChannelControlError::SyncMessageFromUserCode));
    let (messages, verdict) = stage::<4>(Some((3 << 1) | (9 << 4)));
    assert_eq!(
        messages,
        [SYNC, SYNC, SYNC, BittideMessage::CommMessage { neighbor: 3, data: 9 }]
    );
    assert_eq!(verdict, Ok(()));
    let (messages, verdict) = stage::<4>(Some((4 << 1) | (9 << 4)));
    assert_eq!(messages, [SYNC; 4]);
    assert_eq!(verdict, Err(BittideChannelControlError::InvalidNeigbor));
    let (messages, verdict) = stage::<8>(Some((7 << 1) | (9 << 4)));
    assert_eq!(messages[7], BittideMessage::CommMessage { neighbor: 7, data: 9 });
    assert_eq!(verdict, Ok(()));
}

#[test]
fn receive_and_release_step_by_step() {
    let mut rig = rig::<4>([true, true, false, true], vec![], vec![], false, zero_gains());
    let bursts = [
        decode_burst(&[(5 << 1) | (1 << 4), 1], 0),
        decode_burst(&[], 0),
        decode_burst(&[(5 << 1) | (2 << 4)], 0),
        decode_burst(&[(5 << 1) | (3 << 4)], 0),
    ];
    assert_eq!(rig.control.receive(&bursts), Ok(()));
    assert_eq!(levels(&rig), [4, 2, 2, 3]);
    assert_eq!(rig.control.debug().rx_sync_message_counter, 1);
    assert_eq!(rig.control.debug().rx_comm_message_counter, 3);
    assert_eq!(rig.control.release(), [None, None, None, None]);
    assert_eq!(rig.control.release(), [None, None, None, None]);
    assert_eq!(levels(&rig), [2, 0, 2, 1]);
    // the data words come out filed under the link they arrived on
    assert_eq!(rig.control.release(), [Some(1 << 4), None, None, Some((3 << 1) | (3 << 4))]);
    assert_eq!(rig.control.release(), [None, None, None, None]);
    assert_eq!(levels(&rig), [0, 0, 2, 0]);
}

#[test]
fn record_levels_shows_the_levels() {
    let mut rig = rig::<8>([true; 4], vec![], vec![], false, zero_gains());
    let bursts = [
        decode_burst(&[1, 1], 0),
        decode_burst(&[1], 0),
        decode_burst(&[], 0),
        decode_burst(&[1, 1, 1, 1], 0),
    ];
    assert_eq!(rig.control.receive(&bursts), Ok(()));
    let levels = rig.control.buffer_levels();
    assert_eq!(levels, [6, 5, 4, 8]);
    rig.control.record_levels(&levels);
    assert_eq!(rig.control.debug().buffer_levels, [6, 5, 4, 8]);
}

#[test]
fn helpers() {
    assert_eq!(tally(&decode_burst(&[1, 16, 1, 32], 0)), (2, 2));
    assert_eq!(tally(&decode_burst(&[], 0)), (0, 0));
    assert_eq!(bump(5, 3), 8);
    assert_eq!(bump(u32::MAX, 1), 0);
    assert_eq!(bump(u32::MAX - 1, 4), 2);
    assert_eq!(live_links(&[true, true, false, true], &[true, false, false, true]), 2);
    assert_eq!(live_links(&[false; 4], &[true; 4]), 0);
    assert_eq!(live_links(&[true; 4], &[true; 4]), 4);
    assert_eq!(conclude(Ok(()), true), Ok(()));
    assert_eq!(
        conclude(Ok(()), false),
        Err(BittideChannelControlError::FrequenceControllerError)
    );
    assert_eq!(
        conclude(Err(BittideChannelControlError::InvalidNeigbor), false),
        Err(BittideChannelControlError::InvalidNeigbor)
    );
}

#[test]
fn silent_links_go_inactive_and_buffers_run_empty() {
    let mut rig = rig::<8>([true; 4], vec![], vec![], false, zero_gains());
    for tick in 1..=6 {
        assert_eq!(rig.control.interrupt(), Ok(()));
        let level = if tick < 4 { 4 - tick } else { 0 };
        assert_eq!(levels(&rig), [level; 4]);
    }
    assert!(rig.outbox.borrow().is_empty());
    // no live link: the target is zero and so is every level at the end
    assert_eq!(rig.fracs.borrow().len(), 6);
}

#[test]
fn advance_is_the_node_side_of_a_tick() {
    let mut rig = rig::<4>([true; 4], vec![], vec![], false, zero_gains());
    let bursts = [
        decode_burst(&[(7 << 1) | (9 << 4)], 0),
        decode_burst(&[], 0),
        decode_burst(&[1], 0),
        decode_burst(&[1, 1], 0),
    ];
    assert_eq!(rig.control.advance(&bursts), Ok([None; 4]));
    assert_eq!(levels(&rig), [2, 1, 2, 3]);
    assert_eq!(rig.control.debug().buffer_levels, [2, 1, 2, 3]);
    let quiet = [decode_burst(&[], 0), decode_burst(&[], 0), decode_burst(&[], 0), decode_burst(&[], 0)];
    assert_eq!(rig.control.advance(&quiet), Ok([None; 4]));
    assert_eq!(rig.control.advance(&quiet), Ok([Some(9 << 4), None, None, None]));
    assert_eq!(levels(&rig), [0, 0, 0, 1]);
    let flood = [
        decode_burst(&[1, 1, 1, 1], 0),
        decode_burst(&[1, 1, 1, 1], 0),
        decode_burst(&[1, 1, 1, 1], 0),
        decode_burst(&[1, 1, 1, 1], 0),
    ];
    assert_eq!(rig.control.advance(&flood), Err(BittideChannelControlError::TideFifoFull));
    // links 0 to 2 took their four, link 3 ran full, nothing was drained
    assert_eq!(levels(&rig), [4, 4, 4, 4]);
    assert_eq!(rig.control.debug().buffer_levels, [0, 0, 0, 1]);
}

#[test]
fn unmasked_controller_serves_every_link() {
    let written = Rc::new(RefCell::new(Vec::new()));
    let outbox = Rc::new(RefCell::new(Vec::new()));
    let fracs = Rc::new(RefCell::new(Vec::new()));
    let links = ScriptedLinks {
        written: written.clone(),
        incoming: VecDeque::new(),
        activity: LinkActivity::new(),
    };
    let mailbox = Mailbox { inbox: VecDeque::new(), outbox: outbox.clone() };
    let si = RecordingSi { fracs: fracs.clone(), fail: false };
    let controller = Si5351Controller::<RecordingSi, 6>::new(si, 4, zero_gains());
    let fifos = [
        BittideFifo::<6>::new(),
        BittideFifo::<6>::new(),
        BittideFifo::<6>::new(),
        BittideFifo::<6>::new(),
    ];
    let mut control = BittideChannelControl::unmasked(controller, links, mailbox, fifos);
    assert_eq!(control.buffer_levels(), [3, 3, 3, 3]);
    assert_eq!(control.interrupt(), Ok(()));
    assert_eq!(control.buffer_levels(), [2, 2, 2, 2]);
    assert_eq!(control.frequency_controller_debug().adjust, 0);
    assert_eq!(written.borrow().len(), 1);
}

#[test]
fn controller_telemetry_is_handed_out() {
    let gains = PidSettings {
        kp: I16F16::from_bits(0x1_0000),
        ki: I16F16::from_bits(0),
        kd: I16F16::from_bits(0),
    };
    let incoming = vec![[vec![1], vec![1], vec![], vec![]]];
    let mut rig = rig::<64>([true; 4], vec![], incoming, false, gains);
    assert_eq!(rig.control.frequency_controller_debug().frac, 0);
    assert_eq!(rig.control.frequency_controller_debug().adjust, 0);
    assert_eq!(rig.control.interrupt(), Ok(()));
    // two live links: target 64, sum 126, error -62
    assert_eq!(rig.control.frequency_controller_debug().adjust, -62 * 65536);
    assert_eq!(rig.control.frequency_controller_debug().frac, 0x7_ffff + 1119);
}
