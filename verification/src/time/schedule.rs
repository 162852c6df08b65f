//! The hierarchical timing wheel: deferred work keyed by an absolute tick.
//!
//! A wheel of depth `d` is a tree of fixed radix whose leaves are buckets of
//! entities. A tick selects one leaf by its `d` lowest base-`RADIX` digits, so
//! the wheel is, to its users, an array of `RADIX^d` buckets indexed by the
//! tick modulo that capacity. That array is the wheel's view.

use vstd::prelude::*;
use vstd::arithmetic::div_mod::{lemma_fundamental_div_mod_converse, lemma_mod_breakdown, lemma_mod_bound, lemma_small_mod};
use crate::id::Entity;
use crate::time::tick::Tick;

verus! {

broadcast use vstd::std_specs::vec::group_vec_axioms;

/// The number of children of every wheel level.
pub const RADIX: usize = 32;

/// `RADIX` to the power `exponent`.
pub open spec fn radix_pow(exponent: nat) -> nat
    decreases exponent,
{
    if exponent == 0 {
        1
    } else {
        RADIX as nat * radix_pow((exponent - 1) as nat)
    }
}

/// The bucket array after `entity` joined the back of the bucket of `tick`.
pub open spec fn scheduled(slots: Seq<Seq<Entity>>, tick: nat, entity: Entity) -> Seq<Seq<Entity>> {
    let slot = (tick % slots.len()) as int;
    slots.update(slot, slots[slot].push(entity))
}

/// The bucket array after the bucket of `tick` was emptied.
pub open spec fn drained(slots: Seq<Seq<Entity>>, tick: nat) -> Seq<Seq<Entity>> {
    slots.update((tick % slots.len()) as int, Seq::empty())
}

/// The entities that are due at `tick`, oldest first.
pub open spec fn due(slots: Seq<Seq<Entity>>, tick: nat) -> Seq<Entity> {
    slots[(tick % slots.len()) as int]
}

/// The capacities of the wheels of up to six levels.
pub proof fn lemma_radix_pow_values()
    ensures
        radix_pow(0) == 1,
        radix_pow(1) == 32,
        radix_pow(2) == 1024,
        radix_pow(3) == 32768,
        radix_pow(4) == 1048576,
        radix_pow(5) == 33554432,
        radix_pow(6) == 1073741824,
{
    reveal_with_fuel(radix_pow, 8);
}

pub proof fn lemma_radix_pow_positive(exponent: nat)
    ensures
        radix_pow(exponent) > 0,
    decreases exponent,
{
    if exponent > 0 {
        lemma_radix_pow_positive((exponent - 1) as nat);
        assert(RADIX as nat * radix_pow((exponent - 1) as nat) > 0) by (nonlinear_arith)
            requires
                radix_pow((exponent - 1) as nat) > 0,
        ;
    }
}

pub proof fn lemma_radix_pow_monotonic(low: nat, high: nat)
    requires
        low <= high,
    ensures
        radix_pow(low) <= radix_pow(high),
    decreases high,
{
    if low < high {
        lemma_radix_pow_monotonic(low, (high - 1) as nat);
        lemma_radix_pow_positive((high - 1) as nat);
        assert(radix_pow((high - 1) as nat) <= RADIX as nat * radix_pow((high - 1) as nat))
            by (nonlinear_arith)
            requires
                radix_pow((high - 1) as nat) > 0,
        ;
    }
}

/// A tick's slot in a wheel of `layer + 1` levels splits into the digit that
/// picks the child and the slot inside that child.
proof fn lemma_slot_digits(tick: nat, layer: nat)
    ensures
        radix_pow(layer) > 0,
        tick % radix_pow(layer + 1) == radix_pow(layer) * ((tick / radix_pow(layer)) % (
        RADIX as nat)) + tick % radix_pow(layer),
        ((tick % radix_pow(layer + 1)) / radix_pow(layer)) % (RADIX as nat) == (tick / radix_pow(
            layer,
        )) % (RADIX as nat),
        (tick % radix_pow(layer + 1)) % radix_pow(layer) == tick % radix_pow(layer),
        tick % radix_pow(layer + 1) < radix_pow(layer + 1),
{
    let unit = radix_pow(layer) as int;
    lemma_radix_pow_positive(layer);
    lemma_radix_pow_positive(layer + 1);
    assert(radix_pow(layer + 1) == unit * 32) by (nonlinear_arith)
        requires
            radix_pow(layer + 1) == 32 * radix_pow(layer),
            unit == radix_pow(layer),
    ;
    lemma_mod_breakdown(tick as int, unit, 32);
    let slot = tick as int % (unit * 32);
    let digit = (tick as int / unit) % 32;
    let rest = tick as int % unit;
    lemma_mod_bound(tick as int, unit);
    lemma_mod_bound(tick as int / unit, 32);
    lemma_mod_bound(tick as int, unit * 32);
    assert(slot == digit * unit + rest) by (nonlinear_arith)
        requires
            slot == unit * digit + rest,
    ;
    lemma_fundamental_div_mod_converse(slot, unit, digit, rest);
    lemma_small_mod(digit as nat, 32);
}

/// Two slots of one wheel level are the same slot when they pick the same
/// child and the same slot inside it.
proof fn lemma_slot_determined(first: nat, second: nat, layer: nat)
    requires
        (first / radix_pow(layer)) % (RADIX as nat) == (second / radix_pow(layer)) % (RADIX as nat),
        first % radix_pow(layer) == second % radix_pow(layer),
    ensures
        first % radix_pow(layer + 1) == second % radix_pow(layer + 1),
{
    lemma_slot_digits(first, layer);
    lemma_slot_digits(second, layer);
}

/// A timing wheel: either a level with `RADIX` children, or a leaf bucket.
#[derive(Debug)]
pub enum InnerTimingWheelTree {
    Wheel { buckets: Vec<InnerTimingWheelTree>, layer: u32 },
    Bucket(Vec<Entity>),
}

impl View for InnerTimingWheelTree {
    type V = Seq<Seq<Entity>>;

    /// The buckets of the wheel, indexed by tick modulo the capacity.
    open spec fn view(&self) -> Seq<Seq<Entity>> {
        Seq::new(self.spec_capacity(), |slot: int| self.leaf(slot as nat))
    }
}

impl InnerTimingWheelTree {
    /// The number of wheel levels above the leaf buckets.
    pub open spec fn depth(&self) -> nat {
        match self {
            InnerTimingWheelTree::Wheel { layer, .. } => *layer as nat + 1,
            InnerTimingWheelTree::Bucket(_) => 0,
        }
    }

    /// The number of ticks after which slots repeat.
    pub open spec fn spec_capacity(&self) -> nat {
        radix_pow(self.depth())
    }

    /// Every level has `RADIX` children, each one level lower than its parent.
    pub open spec fn shaped(&self) -> bool
        decreases self,
    {
        match self {
            InnerTimingWheelTree::Wheel { buckets, layer } => {
                &&& buckets@.len() == RADIX
                &&& forall|i: int|
                    0 <= i < buckets@.len() ==> {
                        &&& (#[trigger] buckets@[i]).depth() == *layer as nat
                        &&& buckets@[i].shaped()
                    }
            },
            InnerTimingWheelTree::Bucket(_) => true,
        }
    }

    /// The index of the child that `tick` selects at a level of `layer`.
    pub open spec fn digit(tick: nat, layer: nat) -> int {
        ((tick / radix_pow(layer)) % (RADIX as nat)) as int
    }

    /// The content of the leaf bucket that the digits of `tick` lead to.
    pub open spec fn leaf(&self, tick: nat) -> Seq<Entity>
        decreases self,
    {
        match self {
            InnerTimingWheelTree::Wheel { buckets, layer } => {
                let index = Self::digit(tick, *layer as nat);
                if 0 <= index < buckets@.len() {
                    buckets@[index].leaf(tick)
                } else {
                    Seq::empty()
                }
            },
            InnerTimingWheelTree::Bucket(bucket) => bucket@,
        }
    }

    /// The leaf of a tick is the bucket of the view at the tick's slot.
    pub proof fn lemma_leaf_is_slot(&self, tick: nat)
        requires
            self.shaped(),
        ensures
            self.spec_capacity() > 0,
            self.leaf(tick) == due(self@, tick),
        decreases self,
    {
        lemma_radix_pow_positive(self.depth());
        let slot = tick % self.spec_capacity();
        lemma_mod_bound(tick as int, self.spec_capacity() as int);
        match self {
            InnerTimingWheelTree::Wheel { buckets, layer } => {
                let index = Self::digit(tick, *layer as nat);
                lemma_slot_digits(tick, *layer as nat);
                lemma_mod_bound((tick / radix_pow(*layer as nat)) as int, RADIX as int);
                assert(Self::digit(slot, *layer as nat) == index);
                let child = buckets@[index];
                child.lemma_leaf_is_slot(tick);
                child.lemma_leaf_is_slot(slot);
            },
            InnerTimingWheelTree::Bucket(_) => {},
        }
    }

    /// Replacing one slot of the child that `tick` selects replaces the slot
    /// of `tick` in the parent, and nothing else.
    proof fn lemma_child_updated(before: Self, after: Self, tick: nat, content: Seq<Entity>)
        requires
            before.shaped(),
            before is Wheel,
            after is Wheel,
            after->layer == before->layer,
            ({
                let layer = before->layer as nat;
                let index = Self::digit(tick, layer);
                &&& after->buckets@ == before->buckets@.update(index, after->buckets@[index])
                &&& after->buckets@[index].shaped()
                &&& after->buckets@[index].depth() == layer
                &&& after->buckets@[index]@ == before->buckets@[index]@.update(
                    (tick % radix_pow(layer)) as int,
                    content,
                )
            }),
        ensures
            after.shaped(),
            after@ == before@.update((tick % before.spec_capacity()) as int, content),
    {
        let layer = before->layer as nat;
        let index = Self::digit(tick, layer);
        let unit = radix_pow(layer);
        let capacity = before.spec_capacity();
        let slot = tick % capacity;
        lemma_slot_digits(tick, layer);
        lemma_mod_bound((tick / unit) as int, RADIX as int);
        assert forall|i: int| 0 <= i < after->buckets@.len() implies {
            &&& (#[trigger] after->buckets@[i]).depth() == layer
            &&& after->buckets@[i].shaped()
        } by {
            if i != index {
                assert(after->buckets@[i] == before->buckets@[i]);
            }
        }
        let expected = before@.update(slot as int, content);
        assert forall|i: int| 0 <= i < capacity implies #[trigger] after@[i] == expected[i] by {
            let at = i as nat;
            let digit = Self::digit(at, layer);
            lemma_slot_digits(at, layer);
            lemma_mod_bound((at / unit) as int, RADIX as int);
            lemma_small_mod(at, capacity);
            if digit != index {
                assert(after->buckets@[digit] == before->buckets@[digit]);
            } else {
                after->buckets@[index].lemma_leaf_is_slot(at);
                before->buckets@[index].lemma_leaf_is_slot(at);
                if at % unit == tick % unit {
                    lemma_slot_determined(at, tick, layer);
                }
            }
        }
        assert(after@ =~= expected);
    }

    /// A wheel of `layers + 1` levels with nothing scheduled.
    pub fn new(layers: u32) -> (wheel: Self)
        requires
            radix_pow(layers as nat + 1) <= usize::MAX,
        ensures
            wheel.wf(),
            wheel.depth() == layers as nat + 1,
            wheel@ == Seq::new(radix_pow(layers as nat + 1), |slot: int| Seq::<Entity>::empty()),
        decreases layers,
    {
        let mut buckets: Vec<InnerTimingWheelTree> = Vec::with_capacity(RADIX);
        while buckets.len() < RADIX
            invariant
                buckets@.len() <= RADIX,
                radix_pow(layers as nat + 1) <= usize::MAX,
                forall|i: int|
                    0 <= i < buckets@.len() ==> {
                        &&& (#[trigger] buckets@[i]).depth() == layers as nat
                        &&& buckets@[i].shaped()
                        &&& forall|tick: nat| buckets@[i].leaf(tick) == Seq::<Entity>::empty()
                    },
            decreases RADIX - buckets.len(),
        {
            let child = if layers == 0 {
                InnerTimingWheelTree::Bucket(Vec::new())
            } else {
                proof {
                    lemma_radix_pow_monotonic(layers as nat, layers as nat + 1);
                }
                let child = Self::new(layers - 1);
                proof {
                    assert forall|tick: nat| child.leaf(tick) == Seq::<Entity>::empty() by {
                        child.lemma_leaf_is_slot(tick);
                        lemma_mod_bound(tick as int, child.spec_capacity() as int);
                    }
                }
                child
            };
            buckets.push(child);
        }
        let ghost children = buckets@;
        let wheel = InnerTimingWheelTree::Wheel { buckets, layer: layers };
        proof {
            assert forall|tick: nat| #[trigger] wheel.leaf(tick) == Seq::<Entity>::empty() by {
                lemma_radix_pow_positive(layers as nat);
                lemma_mod_bound((tick / radix_pow(layers as nat)) as int, RADIX as int);
                let index = Self::digit(tick, layers as nat);
                assert(children[index].leaf(tick) == Seq::<Entity>::empty());
            }
            assert(wheel@ =~= Seq::new(
                radix_pow(layers as nat + 1),
                |slot: int| Seq::<Entity>::empty(),
            ));
        }
        wheel
    }
}


/// `RADIX` to the power `exponent`, where that fits the machine's word.
fn radix_power(exponent: u32) -> (power: usize)
    requires
        radix_pow(exponent as nat) <= usize::MAX,
    ensures
        power == radix_pow(exponent as nat),
{
    let mut power: usize = 1;
    let mut done: u32 = 0;
    while done < exponent
        invariant
            done <= exponent,
            power == radix_pow(done as nat),
            radix_pow(exponent as nat) <= usize::MAX,
        decreases exponent - done,
    {
        proof {
            lemma_radix_pow_monotonic(done as nat + 1, exponent as nat);
        }
        power = power * RADIX;
        done = done + 1;
    }
    power
}

impl InnerTimingWheelTree {
    /// The leaf bucket of `tick`, open for change: what the caller leaves in
    /// it is what the wheel then holds at that slot.
    fn bucket(&mut self, tick: usize) -> (bucket: &mut Vec<Entity>)
        requires
            old(self).wf(),
        ensures
            bucket@ == due(old(self)@, tick as nat),
            final(self).wf(),
            final(self).depth() == old(self).depth(),
            final(self)@ == old(self)@.update(
                (tick as nat % old(self).spec_capacity()) as int,
                final(bucket)@,
            ),
        decreases old(self).depth(),
    {
        proof {
            old(self).lemma_leaf_is_slot(tick as nat);
        }
        match self {
            InnerTimingWheelTree::Wheel { buckets, layer } => {
                proof {
                    lemma_radix_pow_monotonic(*layer as nat, *layer as nat + 1);
                }
                let resolution = radix_power(*layer);
                let index = (tick / resolution) % RADIX;
                proof {
                    buckets@[index as int].lemma_leaf_is_slot(tick as nat);
                }
                let ghost after = InnerTimingWheelTree::Wheel {
                    buckets: *final(buckets),
                    layer: *final(layer),
                };
                let bucket = buckets[index].bucket(tick);
                proof {
                    Self::lemma_child_updated(*old(self), after, tick as nat, final(bucket)@);
                }
                bucket
            },
            InnerTimingWheelTree::Bucket(bucket) => bucket,
        }
    }
}


/// Deferred work keyed by tick. A scheduler is, to its users, a fixed array of
/// buckets; a tick addresses the bucket at the tick modulo the array's length.
pub trait Scheduler {
    /// The invariant that every operation needs and keeps.
    spec fn wf(&self) -> bool;

    /// The buckets, indexed by tick modulo their number.
    spec fn slots(&self) -> Seq<Seq<Entity>>;

    /// Adds `entity` behind whatever is already due at `tick`.
    fn schedule(&mut self, tick: usize, entity: Entity)
        requires
            old(self).wf(),
        ensures
            final(self).wf(),
            final(self).slots() == scheduled(old(self).slots(), tick as nat, entity),
    ;

    /// Takes out everything that is due at `tick`, in the order in which it
    /// was scheduled.
    fn tasks(&mut self, tick: usize) -> (due_now: Vec<Entity>)
        requires
            old(self).wf(),
        ensures
            final(self).wf(),
            due_now@ == due(old(self).slots(), tick as nat),
            final(self).slots() == drained(old(self).slots(), tick as nat),
    ;

    /// The number of ticks after which buckets repeat: a delay must stay
    /// below it, or the work fires early.
    fn capacity(&self) -> (capacity: usize)
        requires
            self.wf(),
        ensures
            capacity == self.slots().len(),
            capacity > 0,
    ;
}

impl Scheduler for InnerTimingWheelTree {
    /// The wheel has its shape, and its capacity fits the machine's word.
    open spec fn wf(&self) -> bool {
        &&& self.shaped()
        &&& self.spec_capacity() <= usize::MAX
    }

    open spec fn slots(&self) -> Seq<Seq<Entity>> {
        self@
    }

    fn schedule(&mut self, tick: usize, entity: Entity) {
        self.bucket(tick).push(entity);
    }

    fn tasks(&mut self, tick: usize) -> (due_now: Vec<Entity>) {
        let mut due_now: Vec<Entity> = Vec::new();
        core::mem::swap(self.bucket(tick), &mut due_now);
        due_now
    }

    fn capacity(&self) -> (capacity: usize) {
        proof {
            lemma_radix_pow_positive(self.depth());
        }
        match self {
            InnerTimingWheelTree::Wheel { buckets, layer } => radix_power(*layer) * RADIX,
            InnerTimingWheelTree::Bucket(_) => 1,
        }
    }
}

/// A scheduler together with the clock that its delays are measured from.
pub struct TimingWheel<S> {
    pub scheduler: S,
    pub tick: Tick,
}

impl<S: Scheduler> TimingWheel<S> {
    /// Takes out everything that is due at the current tick.
    pub fn tasks(&mut self) -> (due_now: Vec<Entity>)
        requires
            old(self).scheduler.wf(),
        ensures
            final(self).scheduler.wf(),
            final(self).tick == old(self).tick,
            due_now@ == due(old(self).scheduler.slots(), old(self).tick@),
            final(self).scheduler.slots() == drained(old(self).scheduler.slots(), old(self).tick@),
    {
        self.scheduler.tasks(self.tick.current())
    }

    /// Makes `entity` due `ticks` ticks from now.
    pub fn schedule(&mut self, ticks: usize, entity: Entity)
        requires
            old(self).scheduler.wf(),
            ticks < old(self).scheduler.slots().len(),
            old(self).tick@ + ticks <= usize::MAX,
        ensures
            final(self).scheduler.wf(),
            final(self).tick == old(self).tick,
            final(self).scheduler.slots() == scheduled(
                old(self).scheduler.slots(),
                old(self).tick@ + ticks as nat,
                entity,
            ),
    {
        let at = self.tick.current() + ticks;
        self.scheduler.schedule(at, entity);
    }
}

/// How often `entity` occurs in `bucket`.
pub open spec fn occurrences(bucket: Seq<Entity>, entity: Entity) -> nat {
    bucket.to_multiset().count(entity)
}

/// What is scheduled at a tick is what draining that tick returns: the
/// entity comes out behind what was already due, once more than it was due
/// before.
pub proof fn lemma_scheduled_is_due(slots: Seq<Seq<Entity>>, tick: nat, entity: Entity)
    requires
        slots.len() > 0,
    ensures
        due(scheduled(slots, tick, entity), tick) == due(slots, tick).push(entity),
        occurrences(due(scheduled(slots, tick, entity), tick), entity) == occurrences(
            due(slots, tick),
            entity,
        ) + 1,
{
    broadcast use vstd::seq_lib::group_to_multiset_ensures;

    lemma_mod_bound(tick as int, slots.len() as int);
}

/// An entity that is scheduled at a tick where it was not due yet comes out
/// exactly once when that tick is drained.
pub proof fn lemma_scheduled_once(slots: Seq<Seq<Entity>>, tick: nat, entity: Entity)
    requires
        slots.len() > 0,
        !due(slots, tick).contains(entity),
    ensures
        occurrences(due(scheduled(slots, tick, entity), tick), entity) == 1,
{
    broadcast use vstd::seq_lib::group_to_multiset_ensures;

    lemma_scheduled_is_due(slots, tick, entity);
}

/// Draining another tick, one that does not share the slot, returns what it
/// would have returned without the scheduling: the entity does not fire
/// before its tick.
pub proof fn lemma_not_due_elsewhere(slots: Seq<Seq<Entity>>, tick: nat, entity: Entity, other: nat)
    requires
        slots.len() > 0,
        other % slots.len() != tick % slots.len(),
    ensures
        due(scheduled(slots, tick, entity), other) == due(slots, other),
{
    lemma_mod_bound(tick as int, slots.len() as int);
    lemma_mod_bound(other as int, slots.len() as int);
}

/// A delay below the capacity never shares its slot with an earlier tick:
/// work scheduled `delay` ticks ahead is due at none of the ticks before.
pub proof fn lemma_no_early_firing(
    slots: Seq<Seq<Entity>>,
    now: nat,
    delay: nat,
    entity: Entity,
    earlier: nat,
)
    requires
        delay < slots.len(),
        earlier < delay,
    ensures
        due(scheduled(slots, now + delay, entity), now + earlier) == due(slots, now + earlier),
{
    let length = slots.len() as int;
    let first = (now + earlier) as int;
    let second = (now + delay) as int;
    lemma_mod_bound(first, length);
    lemma_mod_bound(second, length);
    if first % length == second % length {
        vstd::arithmetic::div_mod::lemma_fundamental_div_mod(first, length);
        vstd::arithmetic::div_mod::lemma_fundamental_div_mod(second, length);
        let gap = second / length - first / length;
        assert(second - first == length * gap) by (nonlinear_arith)
            requires
                first == length * (first / length) + first % length,
                second == length * (second / length) + second % length,
                first % length == second % length,
                gap == second / length - first / length,
        ;
        assert(false) by (nonlinear_arith)
            requires
                0 < second - first < length,
                second - first == length * gap,
        ;
    }
    lemma_not_due_elsewhere(slots, (now + delay) as nat, entity, (now + earlier) as nat);
}

/// Once a tick is drained nothing is due at it: a second drain returns
/// nothing, whatever was scheduled there before.
pub proof fn lemma_drained_is_empty(slots: Seq<Seq<Entity>>, tick: nat)
    requires
        slots.len() > 0,
    ensures
        due(drained(slots, tick), tick) == Seq::<Entity>::empty(),
        forall|entity: Entity| !due(drained(slots, tick), tick).contains(entity),
{
    lemma_mod_bound(tick as int, slots.len() as int);
}

/// Draining one tick leaves what is due at every other slot as it was.
pub proof fn lemma_drain_keeps_others(slots: Seq<Seq<Entity>>, tick: nat, other: nat)
    requires
        slots.len() > 0,
        other % slots.len() != tick % slots.len(),
    ensures
        due(drained(slots, tick), other) == due(slots, other),
{
    lemma_mod_bound(tick as int, slots.len() as int);
    lemma_mod_bound(other as int, slots.len() as int);
}

/// Two entities scheduled at one tick are drained together, in the order in
/// which they were scheduled.
pub proof fn lemma_same_tick_in_order(
    slots: Seq<Seq<Entity>>,
    tick: nat,
    first: Entity,
    second: Entity,
)
    requires
        slots.len() > 0,
    ensures
        due(scheduled(scheduled(slots, tick, first), tick, second), tick) == due(
            slots,
            tick,
        ).push(first).push(second),
        due(scheduled(scheduled(slots, tick, first), tick, second), tick).contains(first),
        due(scheduled(scheduled(slots, tick, first), tick, second), tick).contains(second),
{
    lemma_mod_bound(tick as int, slots.len() as int);
    let both = due(slots, tick).push(first).push(second);
    assert(both[both.len() - 2] == first);
    assert(both[both.len() - 1] == second);
}

/// Ticks that differ by a multiple of the capacity share a bucket: work
/// scheduled a whole turn of the wheel ahead is due now.
pub proof fn lemma_ticks_alias(slots: Seq<Seq<Entity>>, tick: nat, turns: nat)
    requires
        slots.len() > 0,
    ensures
        due(slots, tick + turns * slots.len()) == due(slots, tick),
{
    vstd::arithmetic::div_mod::lemma_mod_multiples_vanish(
        turns as int,
        tick as int,
        slots.len() as int,
    );
    assert(slots.len() * turns == turns * slots.len()) by (nonlinear_arith);
}

} // verus!
