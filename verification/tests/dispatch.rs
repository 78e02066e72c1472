use lycan::entity::{Direction, Entity};
use lycan::game::{Executor, Game, Mailbox, Step};
use lycan::id::{EntityKind, Id, Sequence, WeakId};
use lycan::instance::{Instance, RemoveEntityError};
use lycan::messages::{Command, Outcome, Reply, Request};

/// An instance with a player (entity 1) and two actors (entities 2 and 3).
fn instance() -> (Instance, Vec<Id<EntityKind>>) {
    let mut ids = Sequence::starting_at(1);
    let mut skins = Sequence::new();
    let mut instance = Instance::new();
    let mut handles = Vec::new();
    let player = Entity::fake_player(Id::forge(0), &mut ids, &mut skins);
    handles.push(player.get_id());
    instance.add_entity(player);
    for _ in 0..2 {
        let actor = Entity::fake_ai(&mut ids, &mut skins);
        handles.push(actor.get_id());
        instance.add_entity(actor);
    }
    (instance, handles)
}

fn numbers(instance: &Instance) -> Vec<u64> {
    instance.get_entities().iter().map(|state| state.get_id().as_u64()).collect()
}

fn listed(outcome: Outcome) -> Vec<u64> {
    match outcome {
        Outcome::Entities(states) => states.iter().map(|s| s.get_id().as_u64()).collect(),
        Outcome::Removed(_) => panic!("a listing was asked for"),
    }
}

#[test]
fn removing_an_actor_takes_it_out() {
    let (mut instance, handles) = instance();
    assert_eq!(instance.remove_entity(WeakId::of(handles[1])), Ok(()));
    assert_eq!(numbers(&instance), vec![1, 3]);
    assert!(instance.entities().get(handles[1]).is_none());
}

#[test]
fn removing_a_player_is_refused_and_the_player_stays() {
    let (mut instance, handles) = instance();
    assert_eq!(instance.remove_entity(WeakId::new(1)), Err(RemoveEntityError::IsPlayer));
    assert_eq!(numbers(&instance), vec![1, 2, 3]);
    assert!(instance.entities().get(handles[0]).is_some());
    assert_eq!(instance.remove_entity(WeakId::new(1)), Err(RemoveEntityError::IsPlayer));
}

#[test]
fn removing_an_unknown_entity_is_not_found() {
    let (mut instance, _) = instance();
    assert_eq!(instance.remove_entity(WeakId::new(9)), Err(RemoveEntityError::NotFound));
    assert_eq!(numbers(&instance), vec![1, 2, 3]);
    assert_eq!(instance.remove_entity(WeakId::new(2)), Ok(()));
    assert_eq!(instance.remove_entity(WeakId::new(2)), Err(RemoveEntityError::NotFound));
    let mut empty = Instance::new();
    assert_eq!(empty.remove_entity(WeakId::new(0)), Err(RemoveEntityError::NotFound));
}

#[test]
fn get_entities_reports_in_table_order() {
    let (mut instance, handles) = instance();
    instance.entities_mut().get_mut(handles[2]).expect("live").walk(Some(Direction::North));
    let states = instance.get_entities();
    assert_eq!(states.len(), 3);
    assert_eq!(states[0].get_orientation(), Direction::East);
    assert_eq!(states[1].get_orientation(), Direction::South);
    assert_eq!(states[2].get_orientation(), Direction::North);
    assert_eq!(f32::from_bits(states[1].get_position().x.to_bits()), 1.0);
    assert_eq!(f32::from_bits(states[0].get_position().x.to_bits()), 0.0);
    assert!(Instance::new().get_entities().is_empty());
}

#[test]
fn execute_carries_out_the_command() {
    let (mut instance, _) = instance();
    assert_eq!(listed(instance.execute(Command::GetEntities)), vec![1, 2, 3]);
    match instance.execute(Command::RemoveEntity(WeakId::new(3))) {
        Outcome::Removed(result) => assert_eq!(result, Ok(())),
        Outcome::Entities(_) => panic!("a removal was asked for"),
    }
    match instance.execute(Command::RemoveEntity(WeakId::new(1))) {
        Outcome::Removed(result) => assert_eq!(result, Err(RemoveEntityError::IsPlayer)),
        Outcome::Entities(_) => panic!("a removal was asked for"),
    }
    assert_eq!(listed(instance.execute(Command::GetEntities)), vec![1, 2]);
}

#[test]
fn mailbox_hands_work_out_in_the_order_it_came() {
    let mut mailbox: Mailbox<&str, u32> = Mailbox::new();
    assert_eq!(mailbox.len(), 0);
    assert!(mailbox.take().is_none());
    mailbox.submit("a", 1);
    mailbox.submit("b", 2);
    mailbox.submit("c", 3);
    assert_eq!(mailbox.len(), 3);
    assert_eq!(mailbox.take(), Some(("a", 1)));
    mailbox.submit("d", 4);
    assert_eq!(mailbox.take(), Some(("b", 2)));
    assert_eq!(mailbox.take(), Some(("c", 3)));
    assert_eq!(mailbox.take(), Some(("d", 4)));
    assert!(mailbox.take().is_none());
    assert_eq!(mailbox.len(), 0);
}

#[test]
fn first_in_first_out() {
    let (instance, _) = instance();
    let mut owner: Executor<u32> = Executor::new(instance);
    owner.submit(1, Command::RemoveEntity(WeakId::new(2)));
    owner.submit(2, Command::GetEntities);
    assert_eq!(numbers(owner.instance()), vec![1, 2, 3]);
    match owner.run_next() {
        Some((1, Outcome::Removed(Ok(())))) => {}
        other => panic!("the removal is answered first: {:?}", other),
    }
    assert_eq!(numbers(owner.instance()), vec![1, 3]);
    match owner.run_next() {
        Some((2, outcome)) => assert_eq!(listed(outcome), vec![1, 3]),
        other => panic!("the listing is answered second: {:?}", other),
    }
    assert!(owner.run_next().is_none());
    assert_eq!(numbers(owner.instance()), vec![1, 3]);
}

#[test]
fn work_waits_behind_what_came_before() {
    let (instance, _) = instance();
    let mut owner: Executor<u32> = Executor::new(instance);
    owner.submit(10, Command::GetEntities);
    owner.submit(11, Command::RemoveEntity(WeakId::new(3)));
    owner.submit(12, Command::RemoveEntity(WeakId::new(3)));
    owner.submit(13, Command::GetEntities);
    match owner.run_next() {
        Some((10, outcome)) => assert_eq!(listed(outcome), vec![1, 2, 3]),
        other => panic!("unexpected answer: {:?}", other),
    }
    assert!(matches!(owner.run_next(), Some((11, Outcome::Removed(Ok(()))))));
    assert!(matches!(
        owner.run_next(),
        Some((12, Outcome::Removed(Err(RemoveEntityError::NotFound))))
    ));
    match owner.run_next() {
        Some((13, outcome)) => assert_eq!(listed(outcome), vec![1, 2]),
        other => panic!("unexpected answer: {:?}", other),
    }
    assert!(owner.run_next().is_none());
}

#[test]
fn the_simulation_reaches_the_state_between_steps() {
    let (instance, handles) = instance();
    let mut owner: Executor<u32> = Executor::new(instance);
    owner.submit(1, Command::GetEntities);
    owner.instance_mut().entities_mut().remove(handles[2]);
    match owner.run_next() {
        Some((1, outcome)) => assert_eq!(listed(outcome), vec![1, 2]),
        other => panic!("unexpected answer: {:?}", other),
    }
}

#[test]
fn work_for_an_unknown_instance_is_not_found() {
    let (instance, _) = instance();
    let mut game: Game<u32> = Game::new();
    assert!(game.add_instance(7, instance).is_none());
    game.submit(1, Request::ForInstance { instance: 8, command: Command::RemoveEntity(WeakId::new(2)) });
    match game.run_next() {
        Step::Replied(1, Reply::InstanceNotFound) => {}
        _ => panic!("the request names no live instance"),
    }
    assert!(matches!(game.run_next(), Step::Idle));
    assert!(game.run_instance_next(7).is_none());
    assert!(game.run_instance_next(8).is_none());
    assert_eq!(numbers(game.instance(7).expect("live").instance()), vec![1, 2, 3]);
    assert!(!game.has_instance(8));
}

#[test]
fn work_for_an_unknown_instance_waits_its_turn() {
    let mut game: Game<u32> = Game::new();
    game.submit(1, Request::Shutdown);
    game.submit(2, Request::ForInstance { instance: 0, command: Command::GetEntities });
    game.submit(3, Request::ForInstance { instance: 0, command: Command::GetEntities });
    assert!(matches!(game.run_next(), Step::Replied(1, Reply::Done)));
    assert!(matches!(game.run_next(), Step::Replied(2, Reply::InstanceNotFound)));
    assert!(matches!(game.run_next(), Step::Replied(3, Reply::InstanceNotFound)));
    assert!(matches!(game.run_next(), Step::Idle));
}

#[test]
fn work_for_an_instance_is_handed_on_and_answered_there() {
    let (instance, _) = instance();
    let mut game: Game<u32> = Game::new();
    assert!(game.add_instance(7, instance).is_none());
    assert!(game.has_instance(7));
    game.submit(1, Request::ForInstance { instance: 7, command: Command::RemoveEntity(WeakId::new(1)) });
    game.submit(2, Request::ForInstance { instance: 7, command: Command::RemoveEntity(WeakId::new(3)) });
    game.submit(3, Request::ForInstance { instance: 7, command: Command::GetEntities });
    assert!(game.run_instance_next(7).is_none());
    assert!(matches!(game.run_next(), Step::Forwarded(7)));
    assert!(matches!(game.run_next(), Step::Forwarded(7)));
    match game.run_instance_next(7) {
        Some((1, Reply::Instance(Outcome::Removed(Err(RemoveEntityError::IsPlayer))))) => {}
        _ => panic!("the player is kept"),
    }
    assert!(matches!(game.run_next(), Step::Forwarded(7)));
    match game.run_instance_next(7) {
        Some((2, Reply::Instance(Outcome::Removed(Ok(()))))) => {}
        _ => panic!("the actor is removed"),
    }
    match game.run_instance_next(7) {
        Some((3, Reply::Instance(outcome))) => assert_eq!(listed(outcome), vec![1, 2]),
        _ => panic!("the listing is answered"),
    }
    assert!(game.run_instance_next(7).is_none());
    assert!(matches!(game.run_next(), Step::Idle));
}

#[test]
fn instances_do_not_see_each_others_work() {
    let (first, _) = instance();
    let (second, _) = instance();
    let mut game: Game<u32> = Game::new();
    assert!(game.add_instance(1, first).is_none());
    assert!(game.add_instance(2, second).is_none());
    game.submit(5, Request::ForInstance { instance: 2, command: Command::RemoveEntity(WeakId::new(2)) });
    assert!(matches!(game.run_next(), Step::Forwarded(2)));
    assert!(game.run_instance_next(1).is_none());
    assert!(matches!(
        game.run_instance_next(2),
        Some((5, Reply::Instance(Outcome::Removed(Ok(())))))
    ));
    assert_eq!(numbers(game.instance(1).expect("live").instance()), vec![1, 2, 3]);
    assert_eq!(numbers(game.instance(2).expect("live").instance()), vec![1, 3]);
}

#[test]
fn a_taken_number_is_refused() {
    let (first, _) = instance();
    let mut game: Game<u32> = Game::new();
    assert!(game.add_instance(1, first).is_none());
    let refused = game.add_instance(1, Instance::new()).expect("the number is taken");
    assert!(refused.get_entities().is_empty());
    assert_eq!(numbers(game.instance(1).expect("live").instance()), vec![1, 2, 3]);
}

#[test]
fn a_removed_instance_takes_its_work_along() {
    let (first, _) = instance();
    let mut game: Game<u32> = Game::new();
    assert!(game.add_instance(1, first).is_none());
    game.submit(4, Request::ForInstance { instance: 1, command: Command::GetEntities });
    assert!(matches!(game.run_next(), Step::Forwarded(1)));
    let mut owner = game.remove_instance(1).expect("live");
    assert!(!game.has_instance(1));
    assert!(game.instance(1).is_none());
    assert!(game.remove_instance(1).is_none());
    match owner.run_next() {
        Some((4, outcome)) => assert_eq!(listed(outcome), vec![1, 2, 3]),
        other => panic!("unexpected answer: {:?}", other),
    }
    game.submit(5, Request::ForInstance { instance: 1, command: Command::GetEntities });
    assert!(matches!(game.run_next(), Step::Replied(5, Reply::InstanceNotFound)));
}

#[test]
fn shutdown_is_answered_at_once() {
    let mut game: Game<u32> = Game::new();
    assert!(!game.is_shutting_down());
    game.submit(1, Request::Shutdown);
    assert!(!game.is_shutting_down());
    assert!(matches!(game.run_next(), Step::Replied(1, Reply::Done)));
    assert!(game.is_shutting_down());
    assert!(matches!(game.run_next(), Step::Idle));
    assert!(game.is_shutting_down());
}
