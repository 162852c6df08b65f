//! Walking on the grid: where an entity stands, the cells that lie between it
//! and its target, and the step that it takes next.
//!
//! A path is walked along the first axis, then along the second, one cell at
//! a time. It lists the cells still to be entered, the next one first, and
//! ends in the target.

use vstd::prelude::*;
use crate::id::{Entity, NetworkId};
use crate::network::mediator::PacketWithConnId;
use crate::path::packet::{PathTarget, PathTargetRequest};
use crate::time::schedule::{scheduled, Scheduler};
use crate::time::tick::Tick;

verus! {

/// How far two targets may lie apart before a walker gives up its own place
/// for the one that it was told.
pub const RESYNC_DISTANCE: u32 = 4;

/// A cell of the grid.
#[derive(Clone, Copy, Debug, PartialEq, Eq, Structural)]
pub struct Position {
    pub x: i32,
    pub y: i32,
}

/// The distance between two coordinates.
pub open spec fn spec_abs_diff(a: int, b: int) -> nat {
    if a >= b {
        (a - b) as nat
    } else {
        (b - a) as nat
    }
}

/// The distance between two coordinates.
pub fn abs_diff(a: i32, b: i32) -> (distance: u32)
    ensures
        distance == spec_abs_diff(a as int, b as int),
{
    if a >= b {
        (a as i64 - b as i64) as u32
    } else {
        (b as i64 - a as i64) as u32
    }
}

impl Position {
    /// The number of steps between two cells, along the axes.
    pub open spec fn spec_taxi_distance(self, other: Position) -> nat {
        spec_abs_diff(self.x as int, other.x as int) + spec_abs_diff(self.y as int, other.y as int)
    }

    /// The number of steps between two cells, along the axes, where it fits
    /// 32 bits.
    pub fn taxi_distance(&self, other: Self) -> (distance: u32)
        requires
            self.spec_taxi_distance(other) <= u32::MAX,
        ensures
            distance == self.spec_taxi_distance(other),
    {
        abs_diff(self.x, other.x) + abs_diff(self.y, other.y)
    }
}

impl From<PathTarget> for Position {
    fn from(value: PathTarget) -> (position: Self) {
        Position { x: value.x, y: value.y }
    }
}

impl vstd::std_specs::convert::FromSpecImpl<PathTarget> for Position {
    open spec fn obeys_from_spec() -> bool {
        true
    }

    open spec fn from_spec(value: PathTarget) -> Self {
        Position { x: value.x, y: value.y }
    }
}

/// The cell that an entity is about to enter, the tick at which it enters it,
/// and the tick at which it set out.
#[derive(Clone, Copy, Debug, PartialEq, Eq, Structural)]
pub struct NextPosition {
    position: Position,
    at_tick: usize,
    prev_tick: usize,
}

impl NextPosition {
    pub closed spec fn spec_position(&self) -> Position {
        self.position
    }

    pub closed spec fn spec_at_tick(&self) -> usize {
        self.at_tick
    }

    pub closed spec fn spec_prev_tick(&self) -> usize {
        self.prev_tick
    }

    pub fn new(position: Position, at_tick: usize, prev_tick: usize) -> (next: Self)
        ensures
            next.spec_position() == position,
            next.spec_at_tick() == at_tick,
            next.spec_prev_tick() == prev_tick,
    {
        NextPosition { position, at_tick, prev_tick }
    }

    #[verifier::when_used_as_spec(spec_position)]
    pub fn position(&self) -> (position: Position)
        ensures
            position == self.spec_position(),
    {
        self.position
    }

    #[verifier::when_used_as_spec(spec_at_tick)]
    pub fn at_tick(&self) -> (tick: usize)
        ensures
            tick == self.spec_at_tick(),
    {
        self.at_tick
    }

    #[verifier::when_used_as_spec(spec_prev_tick)]
    pub fn prev_tick(&self) -> (tick: usize)
        ensures
            tick == self.spec_prev_tick(),
    {
        self.prev_tick
    }
}

/// The step that an entity is taking, if it is taking one.
#[derive(Clone, Copy, Debug, PartialEq, Eq, Structural)]
pub struct MaybeNextPosition {
    pub next_position: Option<NextPosition>,
}

impl MaybeNextPosition {
    /// The cell that the entity is about to enter.
    pub fn position(self) -> (position: Option<Position>)
        ensures
            position == match self.next_position {
                Some(next) => Some(next.spec_position()),
                None => None,
            },
    {
        match self.next_position {
            Some(next) => Some(next.position),
            None => None,
        }
    }

    pub fn next_position(self) -> (next: Option<NextPosition>)
        ensures
            next == self.next_position,
    {
        self.next_position
    }
}

impl Default for MaybeNextPosition {
    fn default() -> (next: Self)
        ensures
            next.next_position is None,
    {
        MaybeNextPosition { next_position: None }
    }
}

/// The cells that an entity has still to enter, the next one first.
#[derive(Clone, Debug, PartialEq, Eq)]
pub struct Path {
    pub positions: Vec<Position>,
}

impl Default for Path {
    fn default() -> (path: Self)
        ensures
            path.positions@.len() == 0,
    {
        Path { positions: Vec::new() }
    }
}

/// The coordinate that lies `steps` steps from `from` in the direction of
/// `to`.
pub open spec fn toward(from: int, to: int, steps: int) -> int {
    if to > from {
        from + steps
    } else {
        from - steps
    }
}

/// The cells that lead from `position` to `target`: along the first axis to
/// the target's column, then along the second to the target.
pub open spec fn steps_between(target: Position, position: Position) -> Seq<Position> {
    let across = spec_abs_diff(target.x as int, position.x as int);
    let along = spec_abs_diff(target.y as int, position.y as int);
    Seq::new(
        across + along,
        |i: int|
            if i < across {
                Position { x: toward(position.x as int, target.x as int, i + 1) as i32, y: position.y }
            } else {
                Position {
                    x: target.x,
                    y: toward(position.y as int, target.y as int, i - across + 1) as i32,
                }
            },
    )
}

/// The coordinate that lies `steps` steps from `from` in the direction of
/// `to`, no further than `to`.
fn step_toward(from: i32, to: i32, steps: u32) -> (at: i32)
    requires
        1 <= steps <= spec_abs_diff(to as int, from as int),
    ensures
        at == toward(from as int, to as int, steps as int),
{
    if to > from {
        (from as i64 + steps as i64) as i32
    } else {
        (from as i64 - steps as i64) as i32
    }
}

/// Replaces `path` by the cells that lead from `position` to `target`.
pub fn update_path(path: &mut Path, target: Position, position: Position)
    requires
        position.spec_taxi_distance(target) <= usize::MAX,
    ensures
        final(path).positions@ == steps_between(target, position),
{
    path.positions.clear();
    let across = abs_diff(target.x, position.x);
    let along = abs_diff(target.y, position.y);
    let mut x: u32 = 0;
    while x < across
        invariant
            x <= across,
            across == spec_abs_diff(target.x as int, position.x as int),
            along == spec_abs_diff(target.y as int, position.y as int),
            across + along <= usize::MAX,
            path.positions@.len() == x,
            forall|i: int| 0 <= i < x ==> path.positions@[i] == steps_between(target, position)[i],
        decreases across - x,
    {
        x = x + 1;
        path.positions.push(Position { x: step_toward(position.x, target.x, x), y: position.y });
    }
    let mut y: u32 = 0;
    while y < along
        invariant
            y <= along,
            across == spec_abs_diff(target.x as int, position.x as int),
            along == spec_abs_diff(target.y as int, position.y as int),
            across + along <= usize::MAX,
            path.positions@.len() == across + y,
            forall|i: int|
                0 <= i < across + y ==> path.positions@[i] == steps_between(target, position)[i],
        decreases along - y,
    {
        y = y + 1;
        path.positions.push(Position { x: target.x, y: step_toward(position.y, target.y, y) });
    }
    assert(path.positions@ =~= steps_between(target, position));
}

/// A path from somewhere to `target` ends in `target`, unless the walker
/// stands on it already.
pub proof fn lemma_path_ends_in_target(target: Position, position: Position)
    requires
        target != position,
    ensures
        steps_between(target, position).len() > 0,
        steps_between(target, position).last() == target,
{
}

/// Every cell of a path is one step from the cell before it, the first one
/// step from where the walker stands.
pub proof fn lemma_path_is_connected(target: Position, position: Position, i: int)
    requires
        0 <= i < steps_between(target, position).len(),
    ensures
        steps_between(target, position)[i].spec_taxi_distance(
            if i == 0 {
                position
            } else {
                steps_between(target, position)[i - 1]
            },
        ) == 1,
{
}

/// The length of a path is the distance that it covers.
pub proof fn lemma_path_length(target: Position, position: Position)
    ensures
        steps_between(target, position).len() == position.spec_taxi_distance(target),
{
}

/// A request to walk somewhere, as the simulation passes it on.
#[derive(Clone, Copy, Debug, PartialEq, Eq, Structural)]
pub struct Target {
    pub entity: Entity,
    pub position: Position,
    pub current_or_next_position: Position,
}

/// What an entity needs in order to walk.
#[derive(Clone, Debug)]
pub struct Walker {
    pub path: Path,
    pub position: Position,
    pub next_position: MaybeNextPosition,
}

/// Where a walker is for the purpose of planning: on the cell that it is
/// about to enter, if it is taking a step, else where it stands.
pub open spec fn current_or_next(position: Position, next: MaybeNextPosition) -> Position {
    match next.next_position {
        Some(step) => step.spec_position(),
        None => position,
    }
}

/// Whether a walker at `own` is too far from where the request places it.
pub open spec fn out_of_step(own: Position, told: Position) -> bool {
    spec_abs_diff(own.x as int, told.x as int) > RESYNC_DISTANCE || spec_abs_diff(
        own.y as int,
        told.y as int,
    ) > RESYNC_DISTANCE
}

/// The path that a walker follows after a request: from where the request
/// places it, if it is out of step; from where it is, if it was heading
/// elsewhere; and the path that it has, if it was heading there already.
pub open spec fn planned(walker: Walker, target: Target) -> Seq<Position> {
    let own = current_or_next(walker.position, walker.next_position);
    if out_of_step(own, target.current_or_next_position) {
        steps_between(target.position, target.current_or_next_position)
    } else if walker.path.positions@.len() == 0 || walker.path.positions@.last()
        != target.position {
        steps_between(target.position, own)
    } else {
        walker.path.positions@
    }
}

/// Plans the way to a target. An entity that could not walk yet is placed
/// where the request says it is, with the path from there. The second part of
/// the result says whether the walker stands still and therefore has to be
/// given its first step.
pub fn pathfind(walker: Option<Walker>, target: Target) -> (planned_walker: (Walker, bool))
    requires
        target.current_or_next_position.spec_taxi_distance(target.position) <= usize::MAX,
        walker matches Some(known) ==> current_or_next(
            known.position,
            known.next_position,
        ).spec_taxi_distance(target.position) <= usize::MAX,
    ensures
        match walker {
            Some(known) => {
                &&& planned_walker.0.path.positions@ == planned(known, target)
                &&& planned_walker.0.position == known.position
                &&& planned_walker.0.next_position == known.next_position
                &&& planned_walker.1 == known.next_position.next_position is None
            },
            None => {
                &&& planned_walker.0.path.positions@ == steps_between(
                    target.position,
                    target.current_or_next_position,
                )
                &&& planned_walker.0.position == target.current_or_next_position
                &&& planned_walker.0.next_position.next_position is None
                &&& planned_walker.1
            },
        },
{
    match walker {
        Some(known) => {
            let mut known = known;
            let own = match known.next_position.position() {
                Some(next) => next,
                None => known.position,
            };
            let told = target.current_or_next_position;
            let length = known.path.positions.len();
            if abs_diff(own.x, told.x) > RESYNC_DISTANCE || abs_diff(own.y, told.y)
                > RESYNC_DISTANCE {
                update_path(&mut known.path, target.position, told);
            } else if length == 0 || !same_cell(known.path.positions[length - 1], target.position) {
                update_path(&mut known.path, target.position, own);
            }
            let idle = known.next_position.next_position.is_none();
            (known, idle)
        },
        None => {
            let mut path = Path::default();
            update_path(&mut path, target.position, target.current_or_next_position);
            (
                Walker {
                    path,
                    position: target.current_or_next_position,
                    next_position: MaybeNextPosition { next_position: None },
                },
                true,
            )
        },
    }
}

/// Whether two cells are the same cell.
pub fn same_cell(first: Position, second: Position) -> (same: bool)
    ensures
        same == (first == second),
{
    first.x == second.x && first.y == second.y
}

/// Gives a walker that stands still its next step: the first cell of its
/// path, to be entered `speed` ticks from now, at which tick the entity is
/// scheduled. A walker that is taking a step, or has nowhere to go, is left
/// alone.
pub fn schedule_next_position<S: Scheduler>(
    entity: Entity,
    speed: usize,
    path: &mut Path,
    next: &mut MaybeNextPosition,
    scheduler: &mut S,
    tick: &Tick,
)
    requires
        old(scheduler).wf(),
        tick@ + speed <= usize::MAX,
    ensures
        final(scheduler).wf(),
        if old(next).next_position is None && old(path).positions@.len() > 0 {
            &&& final(path).positions@ == old(path).positions@.drop_first()
            &&& final(next).next_position is Some
            &&& final(next).next_position->Some_0.spec_position() == old(path).positions@[0]
            &&& final(next).next_position->Some_0.spec_at_tick() == tick@ + speed
            &&& final(next).next_position->Some_0.spec_prev_tick() == tick@
            &&& final(scheduler).slots() == scheduled(
                old(scheduler).slots(),
                tick@ + speed as nat,
                entity,
            )
        } else {
            &&& final(path).positions@ == old(path).positions@
            &&& *final(next) == *old(next)
            &&& final(scheduler).slots() == old(scheduler).slots()
        },
{
    if next.next_position.is_some() {
        return ;
    }
    if path.positions.len() == 0 {
        return ;
    }
    let now = tick.current();
    let at_tick = now + speed;
    let position = path.positions.remove(0);
    assert(path.positions@ =~= old(path).positions@.drop_first());
    next.next_position = Some(NextPosition::new(position, at_tick, now));
    scheduler.schedule(at_tick, entity);
}

/// Completes the step of an entity that is due: it now stands on the cell
/// that it was about to enter, and is taking no step. An entity that was
/// taking none stays where it is.
pub fn set_position_from_next_position(position: &mut Position, next: &mut MaybeNextPosition)
    ensures
        final(next).next_position is None,
        *final(position) == current_or_next(*old(position), *old(next)),
{
    match next.next_position {
        Some(step) => {
            *position = step.position;
            next.next_position = None;
        },
        None => {},
    }
}

/// What the server makes of a client's request: the request for its own
/// simulation, and the packet that tells every client where the entity walks
/// and where it walks from.
pub fn receive_from_client(
    packet: PacketWithConnId<PathTargetRequest>,
    entity: Entity,
    position: Position,
    next: MaybeNextPosition,
) -> (told: (Target, PathTarget))
    ensures
        told.0 == (Target {
            entity,
            position: Position { x: packet.packet.x, y: packet.packet.y },
            current_or_next_position: current_or_next(position, next),
        }),
        told.1 == (PathTarget {
            id: packet.connection_id,
            x: packet.packet.x,
            y: packet.packet.y,
            current_or_next_x: current_or_next(position, next).x,
            current_or_next_y: current_or_next(position, next).y,
        }),
{
    let current_or_next_position = match next.position() {
        Some(step) => step,
        None => position,
    };
    (
        Target {
            entity,
            position: Position { x: packet.packet.x, y: packet.packet.y },
            current_or_next_position,
        },
        PathTarget {
            id: packet.connection_id,
            x: packet.packet.x,
            y: packet.packet.y,
            current_or_next_x: current_or_next_position.x,
            current_or_next_y: current_or_next_position.y,
        },
    )
}

/// What a client makes of the server's word on where `entity` walks.
pub fn receive_from_server(packet: PathTarget, entity: Entity) -> (target: Target)
    ensures
        target == (Target {
            entity,
            position: Position { x: packet.x, y: packet.y },
            current_or_next_position: Position {
                x: packet.current_or_next_x,
                y: packet.current_or_next_y,
            },
        }),
{
    Target {
        entity,
        position: Position { x: packet.x, y: packet.y },
        current_or_next_position: Position {
            x: packet.current_or_next_x,
            y: packet.current_or_next_y,
        },
    }
}

/// The answer to a query about an entity: where it stands, and where it is
/// heading, which is where it stands if it has nowhere to go.
pub fn respond_to_queries(id: NetworkId, path: &Path, position: Position) -> (answer: PathTarget)
    ensures
        answer == (PathTarget {
            id,
            x: if path.positions@.len() > 0 {
                path.positions@.last().x
            } else {
                position.x
            },
            y: if path.positions@.len() > 0 {
                path.positions@.last().y
            } else {
                position.y
            },
            current_or_next_x: position.x,
            current_or_next_y: position.y,
        }),
{
    let length = path.positions.len();
    let heading = if length > 0 {
        path.positions[length - 1]
    } else {
        position
    };
    PathTarget {
        id,
        x: heading.x,
        y: heading.y,
        current_or_next_x: position.x,
        current_or_next_y: position.y,
    }
}

} // verus!
