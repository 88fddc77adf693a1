use bittide::state_machine::{
    test_run_statemachine, Flatten3, Flatten4, LinearComposition, ParallelComposition,
    StateMachine, Swap, UnitStateMachine,
};

#[test]
fn unit_hands_its_input_on() {
    let mut unit = UnitStateMachine::<u32>::new();
    assert_eq!(unit.transition(7), 7);
    assert_eq!(test_run_statemachine(&mut unit, vec![1, 2, 3]), vec![1, 2, 3]);
    assert_eq!(test_run_statemachine(&mut unit, Vec::new()), Vec::<u32>::new());
}

#[test]
fn swap_swaps() {
    let mut swap = Swap::<u8, bool>::new();
    assert_eq!(swap.transition((3, true)), (true, 3));
}

#[test]
fn compositions() {
    let mut row = LinearComposition::new(Swap::<u8, u16>::new(), Swap::<u16, u8>::new());
    assert_eq!(row.transition((1, 2)), (1, 2));
    let mut side = ParallelComposition::new(Swap::<u8, u16>::new(), UnitStateMachine::<bool>::new());
    assert_eq!(side.transition(((1, 2), true)), ((2, 1), true));
    assert_eq!(
        test_run_statemachine(&mut side, vec![((1, 2), true), ((3, 4), false)]),
        vec![((2, 1), true), ((4, 3), false)]
    );
}

#[test]
fn flatten_three() {
    let mut flatten = Flatten3::<u8, u16, u32>::new();
    let flat: (u8, u16, u32) = flatten.transition(((1u8, 2u16), 3u32));
    assert_eq!(flat, (1, 2, 3));
    let flat: (u8, u16, u32) = flatten.transition((1u8, (2u16, 3u32)));
    assert_eq!(flat, (1, 2, 3));
    let nested: ((u8, u16), u32) = flatten.transition((1u8, 2u16, 3u32));
    assert_eq!(nested, ((1, 2), 3));
    let nested: (u8, (u16, u32)) = flatten.transition((1u8, 2u16, 3u32));
    assert_eq!(nested, (1, (2, 3)));
}

#[test]
fn flatten_four() {
    let mut flatten = Flatten4::<u8, u16, u32, u64>::new();
    let flat: (u8, u16, u32, u64) = flatten.transition((((1u8, 2u16), 3u32), 4u64));
    assert_eq!(flat, (1, 2, 3, 4));
    let flat: (u8, u16, u32, u64) = flatten.transition(((1u8, 2u16), (3u32, 4u64)));
    assert_eq!(flat, (1, 2, 3, 4));
    let flat: (u8, u16, u32, u64) = flatten.transition((1u8, (2u16, 3u32, 4u64)));
    assert_eq!(flat, (1, 2, 3, 4));
    let nested: (u8, (u16, (u32, u64))) = flatten.transition((1u8, 2u16, 3u32, 4u64));
    assert_eq!(nested, (1, (2, (3, 4))));
    let nested: ((u8, u16, u32), u64) = flatten.transition((1u8, 2u16, 3u32, 4u64));
    assert_eq!(nested, ((1, 2, 3), 4));
}
