use animus_lib::id::Entity;
use animus_lib::time::schedule::{InnerTimingWheelTree, Scheduler, TimingWheel, RADIX};
use animus_lib::time::tick::{increment_tick, sync_from_server, Tick, TickTarget};
use animus_lib::time::packet::TickSync;

#[test]
fn schedule_then_drain_returns_the_entity_once() {
    let mut wheel = InnerTimingWheelTree::new(1);
    wheel.schedule(2, Entity::from_raw(0));
    assert_eq!(wheel.tasks(1), vec![]);
    assert_eq!(wheel.tasks(2), vec![Entity::from_raw(0)]);
    assert_eq!(wheel.tasks(2), vec![]);
}

#[test]
fn entities_of_one_tick_come_out_in_the_order_of_scheduling() {
    let mut wheel = InnerTimingWheelTree::new(1);
    wheel.schedule(40, Entity::from_raw(2));
    wheel.schedule(41, Entity::from_raw(9));
    wheel.schedule(40, Entity::from_raw(1));
    wheel.schedule(40, Entity::from_raw(2));
    assert_eq!(
        wheel.tasks(40),
        vec![Entity::from_raw(2), Entity::from_raw(1), Entity::from_raw(2)]
    );
    assert_eq!(wheel.tasks(41), vec![Entity::from_raw(9)]);
}

#[test]
fn capacity_is_the_radix_to_the_number_of_levels() {
    assert_eq!(RADIX, 32);
    assert_eq!(InnerTimingWheelTree::new(0).capacity(), 32);
    assert_eq!(InnerTimingWheelTree::new(1).capacity(), 1024);
    assert_eq!(InnerTimingWheelTree::new(2).capacity(), 32768);
    assert_eq!(InnerTimingWheelTree::Bucket(vec![]).capacity(), 1);
}

#[test]
fn a_new_wheel_is_a_level_of_thirty_two_children() {
    match InnerTimingWheelTree::new(1) {
        InnerTimingWheelTree::Wheel { buckets, layer } => {
            assert_eq!(layer, 1);
            assert_eq!(buckets.len(), 32);
            match &buckets[31] {
                InnerTimingWheelTree::Wheel { buckets, layer } => {
                    assert_eq!(*layer, 0);
                    assert_eq!(buckets.len(), 32);
                    assert!(matches!(&buckets[0], InnerTimingWheelTree::Bucket(bucket) if bucket.is_empty()));
                }
                InnerTimingWheelTree::Bucket(_) => panic!("a wheel of two levels has no bucket at the top"),
            }
        }
        InnerTimingWheelTree::Bucket(_) => panic!("a new wheel is no bucket"),
    }
}

#[test]
fn every_slot_of_a_wheel_is_its_own() {
    let mut wheel = InnerTimingWheelTree::new(1);
    for tick in 0..1024usize {
        wheel.schedule(tick, Entity::from_raw(tick as u32));
    }
    for tick in 0..1024usize {
        assert_eq!(wheel.tasks(tick), vec![Entity::from_raw(tick as u32)]);
    }
}

#[test]
fn a_tick_beyond_the_capacity_shares_the_slot_of_an_earlier_one() {
    let mut wheel = InnerTimingWheelTree::new(0);
    wheel.schedule(32 + 5, Entity::from_raw(7));
    assert_eq!(wheel.tasks(5), vec![Entity::from_raw(7)]);
    assert_eq!(wheel.tasks(37), vec![]);
}

#[test]
fn a_bucket_alone_is_a_wheel_of_one_slot() {
    let mut bucket = InnerTimingWheelTree::Bucket(vec![]);
    bucket.schedule(17, Entity::from_raw(1));
    assert_eq!(bucket.tasks(3), vec![Entity::from_raw(1)]);
}

#[test]
fn the_timing_wheel_counts_from_the_current_tick() {
    let mut wheel =
        TimingWheel { scheduler: InnerTimingWheelTree::new(0), tick: Tick::new(100) };
    wheel.schedule(3, Entity::from_raw(1));
    assert_eq!(wheel.tasks(), vec![]);
    wheel.tick.set(103);
    assert_eq!(wheel.tasks(), vec![Entity::from_raw(1)]);
    assert_eq!(wheel.tasks(), vec![]);
}

#[test]
fn the_tick_wraps_at_the_end_of_the_range() {
    let mut tick = Tick::default();
    assert_eq!(tick.current(), 0);
    tick.increment();
    assert_eq!(tick.current(), 1);
    tick.set(usize::MAX);
    increment_tick(&mut tick);
    assert_eq!(tick.current(), 0);

    let mut target = TickTarget::new(usize::MAX);
    target.increment();
    assert_eq!(target.current(), 0);
    target.set(8);
    assert_eq!(target.current(), 8);
}

#[test]
fn the_target_follows_the_last_announcement() {
    let mut target = TickTarget::new(4);
    sync_from_server(&mut target, &[]);
    assert_eq!(target.current(), 4);
    sync_from_server(&mut target, &[TickSync { current: 10 }, TickSync { current: 7 }]);
    assert_eq!(target.current(), 7);
}

#[test]
fn an_entity_is_named_by_index_and_generation() {
    let entity = Entity::from_raw(5);
    assert_eq!(entity.index(), 5);
    assert_eq!(entity.generation(), 0);
    assert_ne!(entity, Entity::from_raw(6));
}
