use bittide::error::BittideChannelControlError;
use bittide::fifo::BittideFifo;
use bittide::links::decode_burst;
use bittide::message::BittideMessage;

#[test]
fn new_buffer_is_half_full_of_fillers() {
    let mut fifo = BittideFifo::<64>::new();
    assert_eq!(fifo.buffer_levels(), 32);
    for _ in 0..32 {
        assert_eq!(fifo.pop_front(), Some(BittideMessage::SyncMessage));
    }
    assert_eq!(fifo.pop_front(), None);
    assert_eq!(fifo.buffer_levels(), 0);
}

#[test]
fn odd_capacity_rounds_the_prefill_down() {
    assert_eq!(BittideFifo::<5>::new().buffer_levels(), 2);
    assert_eq!(BittideFifo::<1>::new().buffer_levels(), 0);
    assert_eq!(BittideFifo::<0>::new().buffer_levels(), 0);
    assert_eq!(BittideFifo::<8>::default().buffer_levels(), 4);
}

#[test]
fn push_and_pop_keep_order() {
    let mut fifo = BittideFifo::<4>::new();
    let a = BittideMessage::CommMessage { neighbor: 1, data: 10 };
    let b = BittideMessage::CommMessage { neighbor: 2, data: 20 };
    assert_eq!(fifo.push_back(a), Ok(()));
    assert_eq!(fifo.push_back(b), Ok(()));
    assert_eq!(fifo.buffer_levels(), 4);
    assert_eq!(fifo.pop_front(), Some(BittideMessage::SyncMessage));
    assert_eq!(fifo.pop_front(), Some(BittideMessage::SyncMessage));
    assert_eq!(fifo.pop_front(), Some(a));
    assert_eq!(fifo.pop_front(), Some(b));
    assert_eq!(fifo.pop_front(), None);
}

#[test]
fn push_on_full_buffer_hands_the_message_back() {
    let mut fifo = BittideFifo::<2>::new();
    let a = BittideMessage::CommMessage { neighbor: 0, data: 1 };
    let b = BittideMessage::CommMessage { neighbor: 0, data: 2 };
    assert_eq!(fifo.push_back(a), Ok(()));
    assert_eq!(fifo.buffer_levels(), 2);
    assert_eq!(fifo.push_back(b), Err(b));
    assert_eq!(fifo.buffer_levels(), 2);
    let mut none = BittideFifo::<0>::new();
    assert_eq!(none.push_back(a), Err(a));
}

#[test]
fn absorb_files_the_burst_under_the_link() {
    let mut fifo = BittideFifo::<8>::new();
    let words = [
        BittideMessage::CommMessage { neighbor: 7, data: 5 }.serialize(),
        BittideMessage::SyncMessage.serialize(),
        BittideMessage::CommMessage { neighbor: 3, data: 6 }.serialize(),
    ];
    let burst = decode_burst(&words, 7);
    assert_eq!(fifo.absorb(&burst, 2), Ok(()));
    assert_eq!(fifo.buffer_levels(), 7);
    for _ in 0..4 {
        assert_eq!(fifo.pop_front(), Some(BittideMessage::SyncMessage));
    }
    assert_eq!(fifo.pop_front(), Some(BittideMessage::CommMessage { neighbor: 2, data: 5 }));
    assert_eq!(fifo.pop_front(), Some(BittideMessage::SyncMessage));
    assert_eq!(fifo.pop_front(), Some(BittideMessage::CommMessage { neighbor: 2, data: 6 }));
}

#[test]
fn absorb_fails_when_the_buffer_runs_full() {
    let mut fifo = BittideFifo::<4>::new();
    let words = [16, 32, 48];
    let burst = decode_burst(&words, 0);
    assert_eq!(fifo.absorb(&burst, 0), Err(BittideChannelControlError::TideFifoFull));
    assert_eq!(fifo.buffer_levels(), 4);
    assert_eq!(fifo.pop_front(), Some(BittideMessage::SyncMessage));
    assert_eq!(fifo.pop_front(), Some(BittideMessage::SyncMessage));
    assert_eq!(fifo.pop_front(), Some(BittideMessage::CommMessage { neighbor: 0, data: 1 }));
    assert_eq!(fifo.pop_front(), Some(BittideMessage::CommMessage { neighbor: 0, data: 2 }));
    assert_eq!(fifo.pop_front(), None);
}

#[test]
fn absorb_exactly_to_the_brim_succeeds() {
    let mut fifo = BittideFifo::<4>::new();
    let burst = decode_burst(&[16, 32], 0);
    assert_eq!(fifo.absorb(&burst, 0), Ok(()));
    assert_eq!(fifo.buffer_levels(), 4);
    let one_more = decode_burst(&[48], 0);
    assert_eq!(fifo.absorb(&one_more, 0), Err(BittideChannelControlError::TideFifoFull));
    let nothing = decode_burst(&[], 0);
    assert_eq!(fifo.absorb(&nothing, 0), Ok(()));
}

#[test]
fn release_forwards_data_and_drops_fillers() {
    let mut fifo = BittideFifo::<4>::new();
    let data = BittideMessage::CommMessage { neighbor: 1, data: 42 };
    fifo.push_back(data).unwrap();
    assert_eq!(fifo.release(), None);
    assert_eq!(fifo.release(), None);
    assert_eq!(fifo.buffer_levels(), 1);
    assert_eq!(fifo.release(), Some((1 << 1) | (42 << 4)));
    assert_eq!(fifo.buffer_levels(), 0);
    assert_eq!(fifo.release(), None);
    assert_eq!(fifo.buffer_levels(), 0);
}
