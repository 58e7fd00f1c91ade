use justmine::inventory::{put_stack, slots_len, stack_in, take_one, Stack};
use justmine::orientation::{Axis, Face, Facing};
use justmine::property::{Half, Hinge, Prop, Property, Value};
use justmine::registry::{BlockKindId, CellState, ItemId};
use justmine::shape::{
    beside, declared, hinges_right, is_door_beside, place, resolve, state_is_door, turn_for,
    turn_state, Declared, Placement, Side, Strike, Turn,
};
use justmine::world::{has_whole_sections, read_cell, write_cell, Position};
use valence::inventory::{Inventory, InventoryKind};
use valence::prelude::{
    BiomeRegistry, BlockKind, BlockPos, BlockState, ChunkLayer, DimensionTypeRegistry, Ident,
    ItemKind, ItemStack, PropName, PropValue, Server, UnloadedChunk,
};
use valence::testing::ScenarioSingleClient;

fn layer() -> ChunkLayer {
    let mut scenario = ScenarioSingleClient::new();
    let mut layer = scenario
        .app
        .world
        .entity_mut(scenario.layer)
        .take::<ChunkLayer>()
        .unwrap();
    layer.insert_chunk([0, 0], UnloadedChunk::new());
    layer
}

fn state(of: BlockState) -> CellState {
    CellState::from_raw(of.to_raw()).unwrap()
}

#[test]
fn items_by_id_and_by_name() {
    for kind in ItemKind::ALL {
        let item = ItemId::from_raw(kind.to_raw()).unwrap();
        assert_eq!(item.raw(), kind.to_raw());
        assert_eq!(ItemId::named(kind.to_str()), Some(item));
        assert_eq!(
            item.block().map(|k| k.raw()),
            BlockKind::from_item_kind(kind).map(|k| k.to_raw())
        );
    }
    assert_eq!(ItemId::from_raw(u16::MAX), None);
    assert_eq!(ItemId::named("no_such_item"), None);
    assert_eq!(ItemId::named(""), None);
    assert_eq!(ItemId::named("Stone"), None);
    assert_eq!(
        ItemId::named("oak_planks").unwrap().raw(),
        ItemKind::OakPlanks.to_raw()
    );
}

#[test]
fn items_with_and_without_a_block() {
    let block = |name: &str| ItemId::named(name).unwrap().block();
    assert_eq!(block("oak_log"), BlockKindId::named("oak_log"));
    assert_eq!(block("oak_door"), BlockKindId::named("oak_door"));
    assert_eq!(block("redstone"), BlockKindId::named("redstone_wire"));
    assert_eq!(block("diamond"), None);
    assert_eq!(block("air"), None);
}

#[test]
fn block_kinds_by_id_and_by_name() {
    for kind in BlockKind::ALL {
        let id = BlockKindId::from_raw(kind.to_raw()).unwrap();
        assert_eq!(id.raw(), kind.to_raw());
        assert_eq!(BlockKindId::named(kind.to_str()), Some(id));
        assert_eq!(id.default_state().raw(), BlockState::from_kind(kind).to_raw());
        assert_eq!(id.default_state().kind(), id);
        for (prop, name) in [
            (Prop::Axis, PropName::Axis),
            (Prop::Facing, PropName::Facing),
            (Prop::Half, PropName::Half),
            (Prop::Hinge, PropName::Hinge),
        ] {
            assert_eq!(id.declares(prop), kind.props().contains(&name));
        }
    }
    assert_eq!(BlockKindId::from_raw(u16::MAX), None);
    assert_eq!(BlockKindId::named("no_such_block"), None);
    assert_eq!(
        BlockKindId::named("oak_log").unwrap().raw(),
        BlockKind::OakLog.to_raw()
    );
}

#[test]
fn door_kinds_declare_what_a_door_needs() {
    let door = BlockKindId::named("oak_door").unwrap();
    assert!(door.declares(Prop::Facing));
    assert!(door.declares(Prop::Half));
    assert!(door.declares(Prop::Hinge));
    assert!(!door.declares(Prop::Axis));
    let log = BlockKindId::named("oak_log").unwrap();
    assert!(log.declares(Prop::Axis));
    assert!(!log.declares(Prop::Facing));
    let planks = BlockKindId::named("oak_planks").unwrap();
    assert!(!planks.declares(Prop::Axis));
    assert!(!planks.declares(Prop::Facing));
    assert!(!planks.declares(Prop::Half));
    assert!(!planks.declares(Prop::Hinge));
}

#[test]
fn states_by_id() {
    assert_eq!(CellState::empty().raw(), 0);
    assert_eq!(CellState::empty().raw(), BlockState::AIR.to_raw());
    assert_eq!(CellState::empty().kind(), BlockKindId::named("air").unwrap());
    assert_eq!(CellState::from_raw(0), Some(CellState::empty()));
    assert_eq!(
        CellState::from_raw(BlockState::max_raw()).map(|s| s.raw()),
        Some(BlockState::max_raw())
    );
    assert_eq!(CellState::from_raw(BlockState::max_raw() + 1), None);
    assert_eq!(CellState::from_raw(u16::MAX), None);
    let stone = state(BlockState::STONE);
    assert_eq!(stone.raw(), BlockState::STONE.to_raw());
    assert_eq!(stone.kind(), BlockKindId::named("stone").unwrap());
}

#[test]
fn state_with_a_property_set() {
    let log = BlockKindId::named("oak_log").unwrap().default_state();
    for (axis, expected) in [
        (Axis::X, PropValue::X),
        (Axis::Y, PropValue::Y),
        (Axis::Z, PropValue::Z),
    ] {
        let changed = log.with(Property::Axis(axis));
        assert_eq!(
            changed.raw(),
            BlockState::from_kind(BlockKind::OakLog)
                .set(PropName::Axis, expected)
                .to_raw()
        );
        assert_eq!(changed.kind(), log.kind());
        assert_eq!(log.try_with(Property::Axis(axis)), Some(changed));
    }
    assert_ne!(log.with(Property::Axis(Axis::X)), log.with(Property::Axis(Axis::Z)));
    assert_ne!(log.with(Property::Axis(Axis::X)), log);
    // A property that the kind does not have cannot be set.
    assert_eq!(log.try_with(Property::Facing(Facing::North)), None);
    assert_eq!(log.try_with(Property::Half(Half::Upper)), None);
    assert_eq!(log.try_with(Property::Hinge(Hinge::Right)), None);
    let door = BlockKind::OakDoor;
    let state = BlockKindId::named("oak_door").unwrap().default_state();
    for (facing, expected) in [
        (Facing::North, PropValue::North),
        (Facing::South, PropValue::South),
        (Facing::East, PropValue::East),
        (Facing::West, PropValue::West),
    ] {
        assert_eq!(
            state.with(Property::Facing(facing)).raw(),
            BlockState::from_kind(door)
                .set(PropName::Facing, expected)
                .to_raw()
        );
    }
    for (half, expected) in [(Half::Lower, PropValue::Lower), (Half::Upper, PropValue::Upper)] {
        assert_eq!(
            state.with(Property::Half(half)).raw(),
            BlockState::from_kind(door)
                .set(PropName::Half, expected)
                .to_raw()
        );
    }
    for (hinge, expected) in [(Hinge::Left, PropValue::Left), (Hinge::Right, PropValue::Right)] {
        assert_eq!(
            state.with(Property::Hinge(hinge)).raw(),
            BlockState::from_kind(door)
                .set(PropName::Hinge, expected)
                .to_raw()
        );
    }
    assert_ne!(
        state.with(Property::Half(Half::Lower)),
        state.with(Property::Half(Half::Upper))
    );
    assert_ne!(
        state.with(Property::Hinge(Hinge::Left)),
        state.with(Property::Hinge(Hinge::Right))
    );
    // A value that the property does not have for this kind changes
    // nothing: the half of stairs is top or bottom.
    let stairs = BlockKindId::named("oak_stairs").unwrap().default_state();
    assert_eq!(stairs.with(Property::Half(Half::Upper)), stairs);
    assert_eq!(stairs.try_with(Property::Half(Half::Lower)), Some(stairs));
}

#[test]
fn property_of_each_value() {
    assert_eq!(Property::Axis(Axis::Y).prop(), Prop::Axis);
    assert_eq!(Property::Facing(Facing::East).prop(), Prop::Facing);
    assert_eq!(Property::Half(Half::Lower).prop(), Prop::Half);
    assert_eq!(Property::Hinge(Hinge::Left).prop(), Prop::Hinge);
    let values = [
        (Property::Axis(Axis::X), Value::X),
        (Property::Axis(Axis::Y), Value::Y),
        (Property::Axis(Axis::Z), Value::Z),
        (Property::Facing(Facing::North), Value::North),
        (Property::Facing(Facing::South), Value::South),
        (Property::Facing(Facing::East), Value::East),
        (Property::Facing(Facing::West), Value::West),
        (Property::Half(Half::Lower), Value::Lower),
        (Property::Half(Half::Upper), Value::Upper),
        (Property::Hinge(Hinge::Left), Value::Left),
        (Property::Hinge(Hinge::Right), Value::Right),
    ];
    for (property, value) in values {
        assert_eq!(property.value(), value);
    }
}

#[test]
fn doors_by_what_their_kind_declares() {
    for kind in BlockKind::ALL {
        assert_eq!(
            state_is_door(state(BlockState::from_kind(kind))),
            kind.props().contains(&PropName::Half) && kind.props().contains(&PropName::Hinge),
            "{}",
            kind.to_str()
        );
    }
    assert!(state_is_door(state(BlockState::from_kind(BlockKind::IronDoor))));
    assert!(state_is_door(state(BlockState::from_kind(BlockKind::OakDoor))));
    assert!(!state_is_door(state(BlockState::from_kind(BlockKind::OakTrapdoor))));
    assert!(!state_is_door(state(BlockState::from_kind(BlockKind::IronTrapdoor))));
    assert!(!state_is_door(state(BlockState::from_kind(BlockKind::OakStairs))));
    assert!(!state_is_door(state(BlockState::from_kind(BlockKind::Sunflower))));
    assert!(!state_is_door(state(BlockState::STONE)));
    assert!(!state_is_door(CellState::empty()));
}

#[test]
fn offsets_of_a_position() {
    let at = Position { x: 1, y: 2, z: 3 };
    assert_eq!(at.offset(Face::Up), Some(Position { x: 1, y: 3, z: 3 }));
    assert_eq!(at.offset(Face::Down), Some(Position { x: 1, y: 1, z: 3 }));
    assert_eq!(at.offset(Face::North), Some(Position { x: 1, y: 2, z: 2 }));
    assert_eq!(at.offset(Face::South), Some(Position { x: 1, y: 2, z: 4 }));
    assert_eq!(at.offset(Face::East), Some(Position { x: 2, y: 2, z: 3 }));
    assert_eq!(at.offset(Face::West), Some(Position { x: 0, y: 2, z: 3 }));
    for face in [Face::Up, Face::Down, Face::North, Face::South, Face::East, Face::West] {
        let direction = match face {
            Face::Up => valence::prelude::Direction::Up,
            Face::Down => valence::prelude::Direction::Down,
            Face::North => valence::prelude::Direction::North,
            Face::South => valence::prelude::Direction::South,
            Face::East => valence::prelude::Direction::East,
            Face::West => valence::prelude::Direction::West,
        };
        let next = BlockPos::new(1, 2, 3).get_in_direction(direction);
        assert_eq!(
            at.offset(face),
            Some(Position {
                x: next.x,
                y: next.y,
                z: next.z
            })
        );
        assert_eq!(at.offset(face).unwrap().offset(face.inverse()), Some(at));
    }
    let max = Position {
        x: i32::MAX,
        y: i32::MAX,
        z: i32::MAX,
    };
    let min = Position {
        x: i32::MIN,
        y: i32::MIN,
        z: i32::MIN,
    };
    for face in [Face::Up, Face::South, Face::East] {
        assert_eq!(max.offset(face), None);
        assert!(min.offset(face).is_some());
    }
    for face in [Face::Down, Face::North, Face::West] {
        assert_eq!(min.offset(face), None);
        assert!(max.offset(face).is_some());
    }
}

#[test]
fn cells_are_read_and_written() {
    let mut layer = layer();
    let at = Position { x: 3, y: 10, z: 5 };
    let other = Position { x: 3, y: 11, z: 5 };
    assert_eq!(read_cell(&layer, at), Some(CellState::empty()));
    let stone = state(BlockState::STONE);
    write_cell(&mut layer, at, stone);
    assert_eq!(read_cell(&layer, at), Some(stone));
    assert_eq!(read_cell(&layer, other), Some(CellState::empty()));
    assert_eq!(layer.block(BlockPos::new(3, 10, 5)).unwrap().state, BlockState::STONE);
    write_cell(&mut layer, at, CellState::empty());
    assert_eq!(read_cell(&layer, at), Some(CellState::empty()));
    layer.set_block(BlockPos::new(3, 11, 5), BlockState::DIRT);
    assert_eq!(read_cell(&layer, other), Some(state(BlockState::DIRT)));
}

#[test]
fn cells_outside_loaded_regions_do_not_exist() {
    let mut layer = layer();
    for at in [
        Position { x: 16, y: 0, z: 0 },
        Position { x: -1, y: 0, z: 0 },
        Position { x: 0, y: 0, z: 16 },
        Position { x: 0, y: -65, z: 0 },
        Position { x: 0, y: 320, z: 0 },
        Position {
            x: 0,
            y: i32::MAX,
            z: 0,
        },
        Position {
            x: 0,
            y: i32::MIN,
            z: 0,
        },
    ] {
        assert_eq!(read_cell(&layer, at), None);
        write_cell(&mut layer, at, state(BlockState::STONE));
        assert_eq!(read_cell(&layer, at), None);
    }
    assert_eq!(
        read_cell(&layer, Position { x: 15, y: 319, z: 15 }),
        Some(CellState::empty())
    );
    assert_eq!(
        read_cell(&layer, Position { x: 0, y: -64, z: 0 }),
        Some(CellState::empty())
    );
}

#[test]
fn stacks_are_read_put_and_taken() {
    let mut inventory = Inventory::new(InventoryKind::Player);
    assert_eq!(slots_len(&inventory), 46);
    assert_eq!(slots_len(&Inventory::new(InventoryKind::Generic9x1)), 9);
    assert_eq!(stack_in(&inventory, 0), None);
    assert_eq!(stack_in(&inventory, 46), None);
    assert_eq!(stack_in(&inventory, u16::MAX), None);
    let stone = ItemId::named("stone").unwrap();
    let three = Stack {
        item: stone,
        count: 3,
    };
    assert!(put_stack(&mut inventory, 7, Some(three)));
    assert_eq!(stack_in(&inventory, 7), Some(three));
    assert_eq!(stack_in(&inventory, 6), None);
    assert_eq!(
        inventory.slot(7),
        Some(&ItemStack::new(ItemKind::Stone, 3, None))
    );
    assert!(!put_stack(&mut inventory, 46, Some(three)));
    take_one(&mut inventory, 7);
    assert_eq!(
        stack_in(&inventory, 7),
        Some(Stack {
            item: stone,
            count: 2
        })
    );
    take_one(&mut inventory, 7);
    assert_eq!(
        stack_in(&inventory, 7),
        Some(Stack {
            item: stone,
            count: 1
        })
    );
    take_one(&mut inventory, 7);
    assert_eq!(stack_in(&inventory, 7), None);
    take_one(&mut inventory, 7);
    assert_eq!(stack_in(&inventory, 7), None);
    take_one(&mut inventory, 46);
    assert!(put_stack(&mut inventory, 7, Some(three)));
    assert!(put_stack(&mut inventory, 7, None));
    assert_eq!(stack_in(&inventory, 7), None);
}

#[test]
fn counts_are_kept_between_1_and_127() {
    let mut inventory = Inventory::new(InventoryKind::Player);
    let stone = ItemId::named("stone").unwrap();
    for (asked, kept) in [(0, 1), (1, 1), (64, 64), (127, 127), (128, 127), (255, 127)] {
        assert!(put_stack(
            &mut inventory,
            0,
            Some(Stack {
                item: stone,
                count: asked
            })
        ));
        assert_eq!(
            stack_in(&inventory, 0),
            Some(Stack {
                item: stone,
                count: kept
            })
        );
    }
}

#[test]
fn taking_leaves_the_rest_of_a_stack_as_it_is() {
    let mut inventory = Inventory::new(InventoryKind::Player);
    let mut tag = valence::prelude::Compound::new();
    tag.insert("Damage", 3_i32);
    inventory.set_slot(2, ItemStack::new(ItemKind::OakLog, 5, Some(tag.clone())));
    inventory.set_slot(3, ItemStack::new(ItemKind::Stone, 9, None));
    take_one(&mut inventory, 2);
    assert_eq!(
        inventory.slot(2),
        Some(&ItemStack::new(ItemKind::OakLog, 4, Some(tag)))
    );
    assert_eq!(
        inventory.slot(3),
        Some(&ItemStack::new(ItemKind::Stone, 9, None))
    );
}

#[test]
fn side_beside_each_facing() {
    assert_eq!(beside(Facing::South), Face::East);
    assert_eq!(beside(Facing::North), Face::West);
    assert_eq!(beside(Facing::East), Face::North);
    assert_eq!(beside(Facing::West), Face::South);
}

#[test]
fn strike_alone() {
    let at = |x, z| Strike {
        x,
        y: Side::Middle,
        z,
    };
    let sides = [Side::Below, Side::Middle, Side::Above];
    for x in sides {
        for z in sides {
            assert_eq!(hinges_right(Facing::South, at(x, z)), x == Side::Below);
            assert_eq!(hinges_right(Facing::North, at(x, z)), x == Side::Above);
            assert_eq!(hinges_right(Facing::East, at(x, z)), z == Side::Above);
            assert_eq!(hinges_right(Facing::West, at(x, z)), z == Side::Below);
        }
    }
    assert_eq!(
        Strike::neutral(),
        Strike {
            x: Side::Middle,
            y: Side::Middle,
            z: Side::Middle
        }
    );
}

#[test]
fn door_beside_the_target() {
    let mut layer = layer();
    let target = Position { x: 5, y: 1, z: 5 };
    for facing in [Facing::North, Facing::South, Facing::East, Facing::West] {
        assert!(!is_door_beside(&layer, target, facing));
    }
    layer.set_block(BlockPos::new(6, 1, 5), BlockState::from_kind(BlockKind::OakDoor));
    assert!(is_door_beside(&layer, target, Facing::South));
    assert!(!is_door_beside(&layer, target, Facing::North));
    assert!(!is_door_beside(&layer, target, Facing::East));
    assert!(!is_door_beside(&layer, target, Facing::West));
    layer.set_block(BlockPos::new(5, 1, 4), BlockState::from_kind(BlockKind::IronTrapdoor));
    assert!(!is_door_beside(&layer, target, Facing::East));
    layer.set_block(BlockPos::new(5, 1, 4), BlockState::from_kind(BlockKind::IronDoor));
    assert!(is_door_beside(&layer, target, Facing::East));
    layer.set_block(BlockPos::new(4, 1, 5), BlockState::STONE);
    assert!(!is_door_beside(&layer, target, Facing::North));
    // At the end of the grid and outside the loaded regions there is no
    // cell beside the target.
    let edge = Position {
        x: i32::MAX,
        y: 1,
        z: 5,
    };
    assert!(!is_door_beside(&layer, edge, Facing::South));
    let border = Position { x: 15, y: 1, z: 5 };
    assert!(!is_door_beside(&layer, border, Facing::South));
}

#[test]
fn properties_that_a_kind_declares() {
    let of = |name: &str| declared(BlockKindId::named(name).unwrap());
    assert_eq!(
        of("oak_planks"),
        Declared {
            axis: false,
            facing: false,
            half: false,
            hinge: false
        }
    );
    assert_eq!(
        of("oak_log"),
        Declared {
            axis: true,
            facing: false,
            half: false,
            hinge: false
        }
    );
    assert_eq!(
        of("furnace"),
        Declared {
            axis: false,
            facing: true,
            half: false,
            hinge: false
        }
    );
    assert_eq!(
        of("oak_door"),
        Declared {
            axis: false,
            facing: true,
            half: true,
            hinge: true
        }
    );
    assert_eq!(
        of("oak_stairs"),
        Declared {
            axis: false,
            facing: true,
            half: true,
            hinge: false
        }
    );
    assert_eq!(
        of("sunflower"),
        Declared {
            axis: false,
            facing: false,
            half: true,
            hinge: false
        }
    );
}

#[test]
fn turn_of_a_block() {
    let left = Strike {
        x: Side::Above,
        y: Side::Middle,
        z: Side::Below,
    };
    let none = Declared {
        axis: false,
        facing: false,
        half: false,
        hinge: false,
    };
    let still = Turn {
        axis: None,
        facing: None,
        tall: false,
        hinge: None,
    };
    assert_eq!(turn_for(none, Face::Up, 90, left, true), still);
    assert_eq!(
        turn_for(Declared { axis: true, ..none }, Face::North, 90, left, true),
        Turn {
            axis: Some(Axis::Z),
            ..still
        }
    );
    assert_eq!(
        turn_for(Declared { facing: true, ..none }, Face::North, 90, left, true),
        Turn {
            facing: Some(Facing::West),
            ..still
        }
    );
    // A half or a hinge without a facing makes no tall block.
    assert_eq!(
        turn_for(
            Declared {
                half: true,
                hinge: true,
                ..none
            },
            Face::North,
            90,
            left,
            true
        ),
        still
    );
    // A facing and a half without a hinge make a tall block without one.
    assert_eq!(
        turn_for(
            Declared {
                facing: true,
                half: true,
                ..none
            },
            Face::North,
            90,
            left,
            true
        ),
        Turn {
            facing: Some(Facing::West),
            tall: true,
            ..still
        }
    );
    let door = Declared {
        axis: false,
        facing: true,
        half: true,
        hinge: true,
    };
    for (yaw, facing, by_strike) in [
        (0, Facing::South, Hinge::Left),
        (180, Facing::North, Hinge::Right),
        (-90, Facing::East, Hinge::Left),
        (90, Facing::West, Hinge::Right),
    ] {
        assert_eq!(
            turn_for(door, Face::Up, yaw, left, false),
            Turn {
                axis: None,
                facing: Some(facing),
                tall: true,
                hinge: Some(by_strike)
            }
        );
        assert_eq!(
            turn_for(door, Face::Up, yaw, left, true),
            Turn {
                axis: None,
                facing: Some(facing),
                tall: true,
                hinge: Some(Hinge::Right)
            }
        );
    }
    assert_eq!(
        turn_for(
            Declared {
                axis: true,
                facing: true,
                half: true,
                hinge: true
            },
            Face::East,
            -45,
            Strike::neutral(),
            false
        ),
        Turn {
            axis: Some(Axis::X),
            facing: Some(Facing::South),
            tall: true,
            hinge: Some(Hinge::Left)
        }
    );
}

#[test]
fn state_of_a_turned_block() {
    let still = Turn {
        axis: None,
        facing: None,
        tall: false,
        hinge: None,
    };
    let door = BlockKindId::named("oak_door").unwrap().default_state();
    let lower = door
        .with(Property::Facing(Facing::East))
        .with(Property::Half(Half::Lower))
        .with(Property::Hinge(Hinge::Right));
    assert_eq!(
        turn_state(
            door,
            Turn {
                axis: None,
                facing: Some(Facing::East),
                tall: true,
                hinge: Some(Hinge::Right)
            }
        ),
        Placement {
            lower,
            upper: Some(lower.with(Property::Half(Half::Upper)))
        }
    );
    assert_ne!(lower, lower.with(Property::Half(Half::Upper)));
    let unhinged = door.with(Property::Facing(Facing::East)).with(Property::Half(Half::Lower));
    assert_eq!(
        turn_state(
            door,
            Turn {
                facing: Some(Facing::East),
                tall: true,
                ..still
            }
        ),
        Placement {
            lower: unhinged,
            upper: Some(unhinged.with(Property::Half(Half::Upper)))
        }
    );
    let log = BlockKindId::named("oak_log").unwrap().default_state();
    assert_eq!(
        turn_state(
            log,
            Turn {
                axis: Some(Axis::Z),
                ..still
            }
        ),
        Placement {
            lower: log.with(Property::Axis(Axis::Z)),
            upper: None
        }
    );
    assert_eq!(
        turn_state(log, still),
        Placement {
            lower: log,
            upper: None
        }
    );
}

#[test]
fn shape_of_a_block() {
    let layer = layer();
    let target = Position { x: 5, y: 1, z: 5 };
    let planks = BlockKindId::named("oak_planks").unwrap();
    assert_eq!(
        resolve(&layer, planks, Face::North, 90, Strike::neutral(), target),
        Placement {
            lower: planks.default_state(),
            upper: None
        }
    );
    let log = BlockKindId::named("oak_log").unwrap();
    assert_eq!(
        resolve(&layer, log, Face::East, 90, Strike::neutral(), target),
        Placement {
            lower: log.default_state().with(Property::Axis(Axis::X)),
            upper: None
        }
    );
    let furnace = BlockKindId::named("furnace").unwrap();
    assert_eq!(
        resolve(&layer, furnace, Face::East, 180, Strike::neutral(), target),
        Placement {
            lower: furnace.default_state().with(Property::Facing(Facing::North)),
            upper: None
        }
    );
    let door = BlockKindId::named("iron_door").unwrap();
    let lower = door
        .default_state()
        .with(Property::Facing(Facing::West))
        .with(Property::Half(Half::Lower))
        .with(Property::Hinge(Hinge::Left));
    assert_eq!(
        resolve(&layer, door, Face::Up, 90, Strike::neutral(), target),
        Placement {
            lower,
            upper: Some(lower.with(Property::Half(Half::Upper)))
        }
    );
    // Stairs have a facing and a half, whose values are top and bottom:
    // they take two cells, and neither half changes the state.
    let stairs = BlockKindId::named("oak_stairs").unwrap();
    let faced = stairs.default_state().with(Property::Facing(Facing::East));
    assert_eq!(
        resolve(&layer, stairs, Face::Up, -90, Strike::neutral(), target),
        Placement {
            lower: faced,
            upper: Some(faced)
        }
    );
}

#[test]
fn shape_is_written_at_the_target_and_above() {
    let mut layer = layer();
    let target = Position { x: 5, y: 1, z: 5 };
    let stone = state(BlockState::STONE);
    let dirt = state(BlockState::DIRT);
    place(
        &mut layer,
        target,
        Placement {
            lower: stone,
            upper: None,
        },
    );
    assert_eq!(read_cell(&layer, target), Some(stone));
    assert_eq!(
        read_cell(&layer, Position { x: 5, y: 2, z: 5 }),
        Some(CellState::empty())
    );
    place(
        &mut layer,
        target,
        Placement {
            lower: dirt,
            upper: Some(stone),
        },
    );
    assert_eq!(read_cell(&layer, target), Some(dirt));
    assert_eq!(read_cell(&layer, Position { x: 5, y: 2, z: 5 }), Some(stone));
    assert_eq!(
        read_cell(&layer, Position { x: 5, y: 0, z: 5 }),
        Some(CellState::empty())
    );
    // The top of the loaded region: the upper cell does not exist.
    let top = Position { x: 5, y: 319, z: 5 };
    place(
        &mut layer,
        top,
        Placement {
            lower: dirt,
            upper: Some(stone),
        },
    );
    assert_eq!(read_cell(&layer, top), Some(dirt));
}

/// A layer of the given height with one chunk loaded.
fn layer_of_height(height: i32) -> ChunkLayer {
    let mut scenario = ScenarioSingleClient::new();
    let name = Ident::new("overworld").unwrap();
    scenario
        .app
        .world
        .resource_mut::<DimensionTypeRegistry>()
        .get_mut(name.as_str_ident())
        .unwrap()
        .height = height;
    let world = &scenario.app.world;
    let mut layer = ChunkLayer::new(
        name,
        world.resource::<DimensionTypeRegistry>(),
        world.resource::<BiomeRegistry>(),
        world.resource::<Server>(),
    );
    layer.insert_chunk([0, 0], UnloadedChunk::new());
    layer
}

#[test]
fn layer_of_whole_sections_has_cells() {
    let mut layer = layer_of_height(48);
    assert!(has_whole_sections(&layer));
    let top = Position { x: 0, y: -64 + 47, z: 0 };
    assert_eq!(read_cell(&layer, top), Some(CellState::empty()));
    write_cell(&mut layer, top, state(BlockState::STONE));
    assert_eq!(read_cell(&layer, top), Some(state(BlockState::STONE)));
    assert_eq!(read_cell(&layer, Position { x: 0, y: -64 + 48, z: 0 }), None);
}

#[test]
fn layer_with_a_broken_section_has_no_cell() {
    let mut layer = layer_of_height(40);
    assert!(!has_whole_sections(&layer));
    for y in [-64, -64 + 31, -64 + 32, -64 + 39, -64 + 40] {
        let at = Position { x: 0, y, z: 0 };
        assert_eq!(read_cell(&layer, at), None);
        write_cell(&mut layer, at, state(BlockState::STONE));
        assert_eq!(read_cell(&layer, at), None);
    }
    assert_eq!(
        layer.block(BlockPos::new(0, -64, 0)).unwrap().state,
        BlockState::AIR
    );
}
