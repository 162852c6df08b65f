use animus_lib::id::{Entity, NetworkId};
use animus_lib::network::mediator::PacketWithConnId;
use animus_lib::path::packet::{PathTarget, PathTargetRequest};
use animus_lib::path::plugin::{
    abs_diff, pathfind, receive_from_client, receive_from_server, respond_to_queries,
    schedule_next_position, set_position_from_next_position, update_path, MaybeNextPosition,
    NextPosition, Path, Position, Target, Walker,
};
use animus_lib::time::schedule::{InnerTimingWheelTree, Scheduler};
use animus_lib::time::tick::Tick;

#[test]
fn should_update_path_pos_x_and_z() {
    let mut path = Path { positions: vec![] };
    let target = Position { x: 3, y: 3 };
    let position = Position { x: 0, y: 0 };

    update_path(&mut path, target, position);

    assert_eq!(path.positions.len(), 6);
    assert_eq!(path.positions[0], Position { x: 1, y: 0 });
    assert_eq!(path.positions[1], Position { x: 2, y: 0 });
    assert_eq!(path.positions[2], Position { x: 3, y: 0 });
    assert_eq!(path.positions[3], Position { x: 3, y: 1 });
    assert_eq!(path.positions[4], Position { x: 3, y: 2 });
    assert_eq!(path.positions[5], Position { x: 3, y: 3 });
}

#[test]
fn should_update_path_pos_x() {
    let mut path = Path { positions: vec![] };
    let target = Position { x: 3, y: 0 };
    let position = Position { x: 0, y: 0 };

    update_path(&mut path, target, position);

    assert_eq!(path.positions.len(), 3);
    assert_eq!(path.positions[0], Position { x: 1, y: 0 });
    assert_eq!(path.positions[1], Position { x: 2, y: 0 });
    assert_eq!(path.positions[2], Position { x: 3, y: 0 });
}

#[test]
fn should_update_path_pos_z() {
    let mut path = Path { positions: vec![] };
    let target = Position { x: 0, y: 3 };
    let position = Position { x: 0, y: 0 };

    update_path(&mut path, target, position);

    assert_eq!(path.positions.len(), 3);
    assert_eq!(path.positions[0], Position { y: 1, x: 0 });
    assert_eq!(path.positions[1], Position { y: 2, x: 0 });
    assert_eq!(path.positions[2], Position { y: 3, x: 0 });
}

#[test]
fn should_update_path_neg_x_neg_z() {
    let mut path = Path { positions: vec![] };
    let target = Position { x: -3, y: -3 };
    let position = Position { x: 0, y: 0 };

    update_path(&mut path, target, position);

    assert_eq!(path.positions.len(), 6);
    assert_eq!(path.positions[0], Position { x: -1, y: 0 });
    assert_eq!(path.positions[1], Position { x: -2, y: 0 });
    assert_eq!(path.positions[2], Position { x: -3, y: 0 });
    assert_eq!(path.positions[3], Position { x: -3, y: -1 });
    assert_eq!(path.positions[4], Position { x: -3, y: -2 });
    assert_eq!(path.positions[5], Position { x: -3, y: -3 });
}

#[test]
fn should_update_path_pos_x_neg_z() {
    let mut path = Path { positions: vec![] };
    let target = Position { x: 3, y: -3 };
    let position = Position { x: 0, y: 0 };

    update_path(&mut path, target, position);

    assert_eq!(path.positions.len(), 6);
    assert_eq!(path.positions[0], Position { x: 1, y: 0 });
    assert_eq!(path.positions[1], Position { x: 2, y: 0 });
    assert_eq!(path.positions[2], Position { x: 3, y: 0 });
    assert_eq!(path.positions[3], Position { x: 3, y: -1 });
    assert_eq!(path.positions[4], Position { x: 3, y: -2 });
    assert_eq!(path.positions[5], Position { x: 3, y: -3 });
}

#[test]
fn update_path_replaces_what_the_path_held() {
    let mut path = Path { positions: vec![Position { x: 9, y: 9 }] };
    update_path(&mut path, Position { x: 1, y: 1 }, Position { x: 1, y: 1 });
    assert_eq!(path.positions, vec![]);
    update_path(&mut path, Position { x: 0, y: 0 }, Position { x: 1, y: -1 });
    assert_eq!(path.positions, vec![Position { x: 0, y: -1 }, Position { x: 0, y: 0 }]);
}

#[test]
fn update_path_reaches_across_the_whole_axis() {
    let mut path = Path::default();
    update_path(
        &mut path,
        Position { x: i32::MAX, y: 0 },
        Position { x: i32::MAX - 2, y: 0 },
    );
    assert_eq!(
        path.positions,
        vec![Position { x: i32::MAX - 1, y: 0 }, Position { x: i32::MAX, y: 0 }]
    );
}

#[test]
fn distances_are_exact_at_the_ends_of_the_range() {
    assert_eq!(abs_diff(i32::MIN, i32::MAX), u32::MAX);
    assert_eq!(abs_diff(i32::MAX, i32::MIN), u32::MAX);
    assert_eq!(abs_diff(-3, 4), 7);
    assert_eq!(abs_diff(5, 5), 0);
    assert_eq!(Position { x: 1, y: -2 }.taxi_distance(Position { x: -3, y: 5 }), 11);
    assert_eq!(Position { x: 0, y: 0 }.taxi_distance(Position { x: 0, y: 0 }), 0);
}

#[test]
fn position_is_made_from_the_target_of_a_packet() {
    let packet = PathTarget {
        id: NetworkId(7),
        x: 4,
        y: -5,
        current_or_next_x: 1,
        current_or_next_y: 2,
    };
    assert_eq!(Position::from(packet), Position { x: 4, y: -5 });
}

#[test]
fn next_position_keeps_what_it_was_made_of() {
    let next = NextPosition::new(Position { x: 1, y: 2 }, 30, 20);
    assert_eq!(next.position(), Position { x: 1, y: 2 });
    assert_eq!(next.at_tick(), 30);
    assert_eq!(next.prev_tick(), 20);
    let maybe = MaybeNextPosition { next_position: Some(next) };
    assert_eq!(maybe.position(), Some(Position { x: 1, y: 2 }));
    assert_eq!(maybe.next_position(), Some(next));
    assert_eq!(MaybeNextPosition::default().position(), None);
}

fn target(position: Position, current_or_next_position: Position) -> Target {
    Target { entity: Entity::from_raw(1), position, current_or_next_position }
}

#[test]
fn pathfind_places_an_entity_that_could_not_walk() {
    let (walker, idle) = pathfind(None, target(Position { x: 2, y: 0 }, Position { x: 0, y: 0 }));
    assert!(idle);
    assert_eq!(walker.position, Position { x: 0, y: 0 });
    assert_eq!(walker.next_position, MaybeNextPosition { next_position: None });
    assert_eq!(walker.path.positions, vec![Position { x: 1, y: 0 }, Position { x: 2, y: 0 }]);
}

#[test]
fn pathfind_plans_from_where_the_walker_is() {
    let walker = Walker {
        path: Path { positions: vec![Position { x: 0, y: 1 }] },
        position: Position { x: 0, y: 0 },
        next_position: MaybeNextPosition {
            next_position: Some(NextPosition::new(Position { x: 1, y: 0 }, 5, 4)),
        },
    };
    let (planned, idle) =
        pathfind(Some(walker), target(Position { x: 3, y: 0 }, Position { x: 0, y: 0 }));
    assert!(!idle);
    assert_eq!(planned.position, Position { x: 0, y: 0 });
    assert_eq!(planned.path.positions, vec![Position { x: 2, y: 0 }, Position { x: 3, y: 0 }]);
}

#[test]
fn pathfind_keeps_a_path_that_leads_to_the_target() {
    let walker = Walker {
        path: Path { positions: vec![Position { x: 1, y: 1 }, Position { x: 1, y: 2 }] },
        position: Position { x: 1, y: 0 },
        next_position: MaybeNextPosition { next_position: None },
    };
    let (planned, idle) =
        pathfind(Some(walker), target(Position { x: 1, y: 2 }, Position { x: 1, y: 0 }));
    assert!(idle);
    assert_eq!(planned.path.positions, vec![Position { x: 1, y: 1 }, Position { x: 1, y: 2 }]);
}

#[test]
fn pathfind_takes_the_told_place_when_out_of_step() {
    let walker = Walker {
        path: Path { positions: vec![] },
        position: Position { x: 0, y: 0 },
        next_position: MaybeNextPosition { next_position: None },
    };
    let (planned, _) =
        pathfind(Some(walker), target(Position { x: 6, y: 0 }, Position { x: 5, y: 0 }));
    assert_eq!(planned.path.positions, vec![Position { x: 6, y: 0 }]);

    let walker = Walker {
        path: Path { positions: vec![] },
        position: Position { x: 0, y: 0 },
        next_position: MaybeNextPosition { next_position: None },
    };
    let (planned, _) =
        pathfind(Some(walker), target(Position { x: 5, y: 0 }, Position { x: 4, y: 0 }));
    assert_eq!(planned.path.positions.len(), 5);
    assert_eq!(planned.path.positions[0], Position { x: 1, y: 0 });
}

#[test]
fn a_walker_is_scheduled_for_its_first_cell() {
    let mut wheel = InnerTimingWheelTree::new(1);
    let tick = Tick::new(10);
    let mut path = Path { positions: vec![Position { x: 1, y: 0 }, Position { x: 2, y: 0 }] };
    let mut next = MaybeNextPosition::default();
    let entity = Entity::from_raw(3);

    schedule_next_position(entity, 3, &mut path, &mut next, &mut wheel, &tick);

    assert_eq!(path.positions, vec![Position { x: 2, y: 0 }]);
    assert_eq!(next.next_position, Some(NextPosition::new(Position { x: 1, y: 0 }, 13, 10)));
    assert_eq!(wheel.tasks(12), vec![]);
    assert_eq!(wheel.tasks(13), vec![entity]);

    schedule_next_position(entity, 3, &mut path, &mut next, &mut wheel, &tick);
    assert_eq!(path.positions, vec![Position { x: 2, y: 0 }]);
    assert_eq!(wheel.tasks(13), vec![]);

    let mut arrived = Position { x: 0, y: 0 };
    set_position_from_next_position(&mut arrived, &mut next);
    assert_eq!(arrived, Position { x: 1, y: 0 });
    assert_eq!(next.next_position, None);
    set_position_from_next_position(&mut arrived, &mut next);
    assert_eq!(arrived, Position { x: 1, y: 0 });
}

#[test]
fn a_walker_without_a_path_is_not_scheduled() {
    let mut wheel = InnerTimingWheelTree::new(0);
    let tick = Tick::new(0);
    let mut path = Path::default();
    let mut next = MaybeNextPosition::default();
    schedule_next_position(Entity::from_raw(1), 1, &mut path, &mut next, &mut wheel, &tick);
    assert_eq!(next.next_position, None);
    assert_eq!(wheel.tasks(1), vec![]);
}

#[test]
fn the_server_tells_where_a_client_walks() {
    let packet =
        PacketWithConnId { packet: PathTargetRequest { x: 5, y: 6 }, connection_id: NetworkId(9) };
    let next = MaybeNextPosition {
        next_position: Some(NextPosition::new(Position { x: 1, y: 1 }, 2, 1)),
    };
    let (request, told) =
        receive_from_client(packet, Entity::from_raw(4), Position { x: 0, y: 1 }, next);
    assert_eq!(
        request,
        Target {
            entity: Entity::from_raw(4),
            position: Position { x: 5, y: 6 },
            current_or_next_position: Position { x: 1, y: 1 },
        }
    );
    assert_eq!(
        told,
        PathTarget { id: NetworkId(9), x: 5, y: 6, current_or_next_x: 1, current_or_next_y: 1 }
    );
    assert_eq!(receive_from_server(told, Entity::from_raw(4)), request);
}

#[test]
fn a_query_is_answered_with_the_heading() {
    let path = Path { positions: vec![Position { x: 1, y: 0 }, Position { x: 2, y: 0 }] };
    assert_eq!(
        respond_to_queries(NetworkId(1), &path, Position { x: 0, y: 0 }),
        PathTarget { id: NetworkId(1), x: 2, y: 0, current_or_next_x: 0, current_or_next_y: 0 }
    );
    assert_eq!(
        respond_to_queries(NetworkId(1), &Path::default(), Position { x: 3, y: 4 }),
        PathTarget { id: NetworkId(1), x: 3, y: 4, current_or_next_x: 3, current_or_next_y: 4 }
    );
}
