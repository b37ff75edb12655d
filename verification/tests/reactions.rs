use axe_man_adventure::animation::Animation;
use axe_man_adventure::direction::Direction;
use axe_man_adventure::game::{
    animate_water, classify_terrain, gameover_key_events, interact_key_events, interact_reaction,
    key_events_title_state, movement_key_events, starting_pose, step_outcome, GameState, MoveOutcome, Terrain, Touched,
    ADVENTURE_BEGINS_MESSAGE, AXE_MAN_IID, LANCER_IID, SLAIN_MESSAGE, TITLE_MESSAGE, VANQUISHED_MESSAGE,
};
use tinyrand::StdRand;

const VILLAGER: u128 = 0x1234;

fn is_attack_start(animation: &Option<Animation>) -> bool {
    matches!(animation, Some(Animation::Attack { frame: 0, .. }))
}

fn is_dying_start(animation: &Option<Animation>) -> bool {
    matches!(animation, Some(Animation::Dying { frame: 0, .. }))
}

#[test]
fn game_opens_on_the_title() {
    assert_eq!(GameState::default(), GameState::Title);
}

#[test]
fn start_keys_move_between_screens() {
    assert_eq!(key_events_title_state(true), Some(GameState::Playing));
    assert_eq!(key_events_title_state(false), None);
    assert_eq!(gameover_key_events(true), Some(GameState::Title));
    assert_eq!(gameover_key_events(false), None);
}

#[test]
fn screen_messages() {
    assert_eq!(TITLE_MESSAGE, "Press F or Space to start!");
    assert_eq!(ADVENTURE_BEGINS_MESSAGE, "The Axe Man begins his adventure!");
}

#[test]
fn identifiers_of_the_two_heroes() {
    assert_eq!(AXE_MAN_IID, 0xa0170640_9b00_11ef_aa23_11f9c6be2b6e);
    assert_eq!(LANCER_IID, 0x85f22ca0_fec0_11ee_8cdd_41f7def1ae8a);
}

#[test]
fn entities_start_facing_east_and_idle() {
    let (direction, animation) = starting_pose();
    assert_eq!(direction, Direction::East);
    assert_eq!(animation, Animation::Idle);
}

#[test]
fn terrain_kinds() {
    assert_eq!(classify_terrain("water"), Terrain::Water);
    assert_eq!(classify_terrain("grass"), Terrain::Walkable);
    assert_eq!(classify_terrain("dirt"), Terrain::Walkable);
    assert_eq!(classify_terrain("tree"), Terrain::Walkable);
    assert_eq!(classify_terrain("bridge"), Terrain::Walkable);
    assert_eq!(classify_terrain("lava"), Terrain::Unknown);
    assert_eq!(classify_terrain("Grass"), Terrain::Unknown);
    assert_eq!(classify_terrain(""), Terrain::Unknown);
}

#[test]
fn walking_into_the_lancer_is_death() {
    let outcome = step_outcome(Some(LANCER_IID), Some("grass"));
    assert_eq!(outcome, MoveOutcome::Slain);
    let reaction = outcome.reaction();
    assert_eq!(reaction.message.as_deref(), Some(SLAIN_MESSAGE));
    assert_eq!(SLAIN_MESSAGE, "The axe man has been slain!");
    assert!(is_dying_start(&reaction.axe_man));
    assert!(is_attack_start(&reaction.touched));
    assert_eq!(reaction.next_state, Some(GameState::GameOver));
}

#[test]
fn other_entities_block_the_way() {
    let outcome = step_outcome(Some(VILLAGER), Some("grass"));
    assert_eq!(outcome, MoveOutcome::Blocked);
    let reaction = outcome.reaction();
    assert!(reaction.message.is_none() && reaction.axe_man.is_none() && reaction.next_state.is_none());
}

#[test]
fn the_ground_decides_the_rest() {
    assert_eq!(step_outcome(None, None), MoveOutcome::Void);
    assert_eq!(step_outcome(None, Some("water")), MoveOutcome::Water);
    assert_eq!(step_outcome(None, Some("bridge")), MoveOutcome::Walk);
    assert_eq!(step_outcome(None, Some("cliff")), MoveOutcome::UnknownTerrain);
    let walk = MoveOutcome::Walk.reaction();
    assert_eq!(walk.axe_man, Some(Animation::Walking));
    assert!(walk.message.is_none() && walk.touched.is_none() && walk.next_state.is_none());
    assert!(MoveOutcome::Water.reaction().axe_man.is_none());
}

#[test]
fn striking_the_lancer_vanquishes_him() {
    let touched = Some(Touched { iid: LANCER_IID, replies: Some(vec!["Hm".to_string()]) });
    let reaction = interact_reaction(true, &touched, 0);
    assert_eq!(reaction.message.as_deref(), Some(VANQUISHED_MESSAGE));
    assert_eq!(VANQUISHED_MESSAGE, "The Vile Lancer has been vanquished!");
    assert!(is_attack_start(&reaction.axe_man));
    assert!(is_dying_start(&reaction.touched));
    assert_eq!(reaction.next_state, Some(GameState::GameOver));
}

#[test]
fn striking_at_nothing_is_a_swing() {
    let reaction = interact_reaction(true, &None, 0);
    assert!(reaction.message.is_none());
    assert!(is_attack_start(&reaction.axe_man));
    assert!(reaction.touched.is_none());
    assert!(reaction.next_state.is_none());
}

#[test]
fn no_blow_without_the_key() {
    let mut rng = StdRand::default();
    let reaction = interact_key_events(false, &None, &mut rng);
    assert!(reaction.message.is_none() && reaction.axe_man.is_none() && reaction.next_state.is_none());
}

#[test]
fn villagers_answer_with_the_chosen_reply() {
    let touched = Some(Touched {
        iid: VILLAGER,
        replies: Some(vec!["Hello".to_string(), "Go away".to_string(), "Beware the Lancer".to_string()]),
    });
    assert_eq!(interact_reaction(true, &touched, 1).message.as_deref(), Some("Go away"));
    assert_eq!(interact_reaction(true, &touched, 2).message.as_deref(), Some("Beware the Lancer"));
    let reaction = interact_reaction(true, &touched, 0);
    assert!(reaction.axe_man.is_none() && reaction.touched.is_none() && reaction.next_state.is_none());
}

#[test]
fn villagers_answer_with_one_of_their_replies() {
    let replies = vec!["Hello".to_string(), "Go away".to_string(), "Beware the Lancer".to_string()];
    let touched = Some(Touched { iid: VILLAGER, replies: Some(replies.clone()) });
    let mut rng = StdRand::default();
    let mut seen = std::collections::HashSet::new();
    for _ in 0..200 {
        let message = interact_key_events(true, &touched, &mut rng).message.expect("a reply");
        assert!(replies.contains(&message));
        seen.insert(message);
    }
    assert!(seen.len() > 1);
}

#[test]
fn silent_entities_say_nothing() {
    let touched = Some(Touched { iid: VILLAGER, replies: None });
    let mut rng = StdRand::default();
    let reaction = interact_key_events(true, &touched, &mut rng);
    assert!(reaction.message.is_none() && reaction.axe_man.is_none() && reaction.touched.is_none());
}

#[test]
fn water_layers_take_turns() {
    for frame in 0..4 {
        let shown: Vec<Option<bool>> =
            ["Water1", "Water2", "Water3", "Water4"].iter().map(|name| animate_water(name, frame)).collect();
        let expected: Vec<Option<bool>> = (0..4).map(|k| Some(k == frame)).collect();
        assert_eq!(shown, expected);
    }
    assert_eq!(animate_water("Ground", 0), None);
    assert_eq!(animate_water("Water5", 0), None);
}

#[test]
fn moving_needs_exactly_one_key_group() {
    assert_eq!(movement_key_events(true, false, false, false), Some(Direction::North));
    assert_eq!(movement_key_events(false, false, false, true), Some(Direction::West));
    assert_eq!(movement_key_events(false, false, false, false), None);
    assert_eq!(movement_key_events(true, false, true, false), None);
    assert_eq!(movement_key_events(true, true, false, false), None);
}
