//! The game's states, and how the world answers the Axe Man's moves and blows.

use vstd::prelude::*;
use tinyrand::{RandRange, StdRand};
use crate::animation::{Animation, AnimationModel};
use crate::timer::{TimerModel, ATTACK_FRAME_NANOS, DYING_FRAME_NANOS};
use crate::direction::{direction_of_keys, Direction};

verus! {

/// The screens of the game.
#[derive(Clone, Copy, Debug, PartialEq, Eq, Hash, Structural)]
pub enum GameState {
    Title,
    Playing,
    GameOver,
}

impl Default for GameState {
    /// The game opens on the title screen.
    fn default() -> (state: GameState)
        ensures
            state == GameState::Title,
    {
        GameState::Title
    }
}

/// The message on the title screen.
pub const TITLE_MESSAGE: &'static str = "Press F or Space to start!";

/// The message when the adventure starts.
pub const ADVENTURE_BEGINS_MESSAGE: &'static str = "The Axe Man begins his adventure!";

/// The message when the Axe Man walks into the Lancer.
pub const SLAIN_MESSAGE: &'static str = "The axe man has been slain!";

/// The message when the Axe Man strikes the Lancer.
pub const VANQUISHED_MESSAGE: &'static str = "The Vile Lancer has been vanquished!";

/// The level's instance identifier of the Axe Man, as a `u128`.
pub const AXE_MAN_IID: u128 = 0xa0170640_9b00_11ef_aa23_11f9c6be2b6e;

/// The level's instance identifier of the Lancer, as a `u128`.
pub const LANCER_IID: u128 = 0x85f22ca0_fec0_11ee_8cdd_41f7def1ae8a;

/// The state that the start keys lead to from the title screen.
pub open spec fn title_next_state(start_pressed: bool) -> Option<GameState> {
    if start_pressed { Some(GameState::Playing) } else { None }
}

/// The state that the start keys lead to from the game-over screen.
pub open spec fn gameover_next_state(start_pressed: bool) -> Option<GameState> {
    if start_pressed { Some(GameState::Title) } else { None }
}

/// On the title screen, F or Space starts the adventure.
pub fn key_events_title_state(start_pressed: bool) -> (next: Option<GameState>)
    ensures
        next == title_next_state(start_pressed),
{
    if start_pressed { Some(GameState::Playing) } else { None }
}

/// On the game-over screen, F or Space goes back to the title.
pub fn gameover_key_events(start_pressed: bool) -> (next: Option<GameState>)
    ensures
        next == gameover_next_state(start_pressed),
{
    if start_pressed { Some(GameState::Title) } else { None }
}

/// What a new entity of the level starts as: facing East, idling.
pub fn starting_pose() -> (pose: (Direction, Animation))
    ensures
        pose.0 == Direction::East,
        pose.1@ == AnimationModel::Idle,
{
    (Direction::East, Animation::Idle)
}

/// What the ground at a spot is like for walking.
#[derive(Clone, Copy, Debug, PartialEq, Eq, Structural)]
pub enum Terrain {
    /// Grass, dirt, trees and bridges can be walked on.
    Walkable,
    /// Water cannot be walked on.
    Water,
    /// A kind of ground the game does not know; it is not walked on.
    Unknown,
}

/// The kind of ground named by a level's terrain identifier.
pub open spec fn terrain_of(identifier: Seq<char>) -> Terrain {
    if identifier == "water"@ {
        Terrain::Water
    } else if identifier == "grass"@ || identifier == "dirt"@ || identifier == "tree"@ || identifier == "bridge"@ {
        Terrain::Walkable
    } else {
        Terrain::Unknown
    }
}

/// Whether two texts are the same.
fn same_text(a: &str, b: &str) -> (same: bool)
    ensures
        same == (a@ == b@),
{
    let a_owned = a.to_owned();
    let b_owned = b.to_owned();
    a_owned == b_owned
}

/// The kind of ground named by a level's terrain identifier.
pub fn classify_terrain(identifier: &str) -> (terrain: Terrain)
    ensures
        terrain == terrain_of(identifier@),
{
    if same_text(identifier, "water") {
        Terrain::Water
    } else if same_text(identifier, "grass") || same_text(identifier, "dirt") || same_text(identifier, "tree")
        || same_text(identifier, "bridge") {
        Terrain::Walkable
    } else {
        Terrain::Unknown
    }
}

/// How a step of the Axe Man towards a neighbouring spot turns out.
#[derive(Clone, Copy, Debug, PartialEq, Eq, Structural)]
pub enum MoveOutcome {
    /// The Lancer stands there: the Axe Man runs into him and is slain.
    Slain,
    /// Another entity stands there: the Axe Man does not move.
    Blocked,
    /// There is no ground there: the Axe Man does not move.
    Void,
    /// There is water there: the Axe Man does not move.
    Water,
    /// The ground there is of an unknown kind: the Axe Man does not move.
    UnknownTerrain,
    /// The Axe Man walks there.
    Walk,
}

/// How a step turns out, from the instance identifier of the entity standing
/// at the destination, if any, and the terrain identifier there, if any. An
/// entity decides before the ground does.
pub open spec fn move_outcome(touched: Option<u128>, terrain: Option<Seq<char>>) -> MoveOutcome {
    match touched {
        Some(iid) => if iid == LANCER_IID { MoveOutcome::Slain } else { MoveOutcome::Blocked },
        None => match terrain {
            None => MoveOutcome::Void,
            Some(identifier) => match terrain_of(identifier) {
                Terrain::Water => MoveOutcome::Water,
                Terrain::Walkable => MoveOutcome::Walk,
                Terrain::Unknown => MoveOutcome::UnknownTerrain,
            },
        },
    }
}

/// The view of an optional text.
pub open spec fn text_view(text: Option<String>) -> Option<Seq<char>> {
    match text {
        Some(t) => Some(t@),
        None => None,
    }
}

/// The start of a move: from which of the up, right, down and left key groups
/// are held, the direction the Axe Man turns to and steps towards. Unless
/// exactly one group is held, nothing happens at all (`None`).
pub fn movement_key_events(up: bool, right: bool, down: bool, left: bool) -> (direction: Option<Direction>)
    ensures
        direction == direction_of_keys(up, right, down, left),
{
    Direction::from_keys(up, right, down, left)
}

/// The whole of a move as values: `None` when the keys pick no direction;
/// otherwise the direction the Axe Man turns to, and how his step that way
/// turns out given what stands at the destination and the ground there.
pub open spec fn movement(
    up: bool,
    right: bool,
    down: bool,
    left: bool,
    touched: Option<u128>,
    terrain: Option<Seq<char>>,
) -> Option<(Direction, MoveOutcome)> {
    match direction_of_keys(up, right, down, left) {
        Some(direction) => Some((direction, move_outcome(touched, terrain))),
        None => None,
    }
}

/// How a step turns out: `touched` is the instance identifier of the entity
/// at the destination, `terrain` the terrain identifier of the ground there.
pub fn step_outcome(touched: Option<u128>, terrain: Option<&str>) -> (outcome: MoveOutcome)
    ensures
        outcome == move_outcome(touched, match terrain { Some(t) => Some(t@), None => None }),
{
    match touched {
        Some(iid) => if iid == LANCER_IID { MoveOutcome::Slain } else { MoveOutcome::Blocked },
        None => match terrain {
            None => MoveOutcome::Void,
            Some(identifier) => match classify_terrain(identifier) {
                Terrain::Water => MoveOutcome::Water,
                Terrain::Walkable => MoveOutcome::Walk,
                Terrain::Unknown => MoveOutcome::UnknownTerrain,
            },
        },
    }
}

/// What the world does in answer to the Axe Man: the new text of the message
/// board, the animations the Axe Man and the entity he touched start, and the
/// state the game moves to. `None` leaves a thing as it is.
pub struct Reaction {
    pub message: Option<String>,
    pub axe_man: Option<Animation>,
    pub touched: Option<Animation>,
    pub next_state: Option<GameState>,
}

/// A reaction as values.
pub struct ReactionModel {
    pub message: Option<Seq<char>>,
    pub axe_man: Option<AnimationModel>,
    pub touched: Option<AnimationModel>,
    pub next_state: Option<GameState>,
}

/// The view of an optional animation.
pub open spec fn animation_view(animation: Option<Animation>) -> Option<AnimationModel> {
    match animation {
        Some(a) => Some(a@),
        None => None,
    }
}

impl View for Reaction {
    type V = ReactionModel;

    open spec fn view(&self) -> ReactionModel {
        ReactionModel {
            message: text_view(self.message),
            axe_man: animation_view(self.axe_man),
            touched: animation_view(self.touched),
            next_state: self.next_state,
        }
    }
}

impl ReactionModel {
    /// Nothing happens.
    pub open spec fn nothing() -> ReactionModel {
        ReactionModel { message: None, axe_man: None, touched: None, next_state: None }
    }

    /// The Axe Man ran into the Lancer: he dies, the Lancer strikes, the game is over.
    pub open spec fn slain() -> ReactionModel {
        ReactionModel {
            message: Some(SLAIN_MESSAGE@),
            axe_man: Some(AnimationModel::dying_start()),
            touched: Some(AnimationModel::attack_start()),
            next_state: Some(GameState::GameOver),
        }
    }

    /// The Axe Man struck the Lancer: he strikes, the Lancer dies, the game is over.
    pub open spec fn vanquished() -> ReactionModel {
        ReactionModel {
            message: Some(VANQUISHED_MESSAGE@),
            axe_man: Some(AnimationModel::attack_start()),
            touched: Some(AnimationModel::dying_start()),
            next_state: Some(GameState::GameOver),
        }
    }

    /// The Axe Man starts walking.
    pub open spec fn walk() -> ReactionModel {
        ReactionModel { message: None, axe_man: Some(AnimationModel::Walking), touched: None, next_state: None }
    }

    /// The Axe Man swings at nothing.
    pub open spec fn swing() -> ReactionModel {
        ReactionModel { message: None, axe_man: Some(AnimationModel::attack_start()), touched: None, next_state: None }
    }

    /// Someone answers with `text`.
    pub open spec fn reply(text: Seq<char>) -> ReactionModel {
        ReactionModel { message: Some(text), axe_man: None, touched: None, next_state: None }
    }
}

impl MoveOutcome {
    /// What the world does after a step turned out so.
    pub open spec fn reaction_model(self) -> ReactionModel {
        match self {
            MoveOutcome::Slain => ReactionModel::slain(),
            MoveOutcome::Walk => ReactionModel::walk(),
            _ => ReactionModel::nothing(),
        }
    }

    /// What the world does after a step turned out so.
    pub fn reaction(&self) -> (reaction: Reaction)
        ensures
            reaction@ == self.reaction_model(),
    {
        match self {
            MoveOutcome::Slain => Reaction {
                message: Some(SLAIN_MESSAGE.to_owned()),
                axe_man: Some(Animation::new_dying()),
                touched: Some(Animation::new_attack()),
                next_state: Some(GameState::GameOver),
            },
            MoveOutcome::Walk => Reaction {
                message: None,
                axe_man: Some(Animation::Walking),
                touched: None,
                next_state: None,
            },
            _ => Reaction { message: None, axe_man: None, touched: None, next_state: None },
        }
    }
}

/// The random number generator `tinyrand::Wyrand` (the crate's `StdRand`),
/// carried through as an opaque value.
#[verifier::external_type_specification]
#[verifier::external_body]
pub struct ExWyrand(tinyrand::Wyrand);

/// Draws an index in `0..len` with `tinyrand`'s `RandRange::next_range`.
/// Its source asserts that the range is not empty and returns a number inside
/// it; which one comes out depends on the generator's state, which it moves
/// on, and is not stated.
#[verifier::external_body]
fn random_index(rng: &mut StdRand, len: usize) -> (index: usize)
    requires
        0 < len,
    ensures
        index < len,
{
    rng.next_range(0..len)
}

/// The entity that the Axe Man strikes at: its instance identifier, and the
/// replies it can give, if its level fields hold a "Replies" list.
pub struct Touched {
    pub iid: u128,
    pub replies: Option<Vec<String>>,
}

/// Whether a blow with these inputs makes the struck entity answer with one
/// of its replies.
pub open spec fn picks_reply(pressed: bool, touched: Option<Touched>) -> bool {
    pressed && match touched {
        Some(t) => t.iid != LANCER_IID && t.replies is Some,
        None => false,
    }
}

/// How many replies the struck entity has to choose from.
pub open spec fn reply_count(touched: Option<Touched>) -> int {
    match touched {
        Some(t) => match t.replies {
            Some(replies) => replies@.len() as int,
            None => 0,
        },
        None => 0,
    }
}

/// What the world does when the Axe Man strikes (`pressed`) at the spot in
/// front of him, where `touched` stands, if anyone; `index` chooses the reply.
/// Striking at no one is a swing in the air; striking the Lancer vanquishes
/// him; anyone else with replies answers with the chosen one; anyone else
/// says nothing.
pub open spec fn interaction(pressed: bool, touched: Option<Touched>, index: int) -> ReactionModel {
    if !pressed {
        ReactionModel::nothing()
    } else {
        match touched {
            None => ReactionModel::swing(),
            Some(t) => if t.iid == LANCER_IID {
                ReactionModel::vanquished()
            } else {
                match t.replies {
                    Some(replies) => ReactionModel::reply(replies@[index]@),
                    None => ReactionModel::nothing(),
                }
            },
        }
    }
}

/// What the world does when the Axe Man strikes at the spot in front of him,
/// with the reply, if one is given, chosen by `reply_index`.
pub fn interact_reaction(pressed: bool, touched: &Option<Touched>, reply_index: usize) -> (reaction: Reaction)
    requires
        picks_reply(pressed, *touched) ==> reply_index < reply_count(*touched),
    ensures
        reaction@ == interaction(pressed, *touched, reply_index as int),
{
    if !pressed {
        return Reaction { message: None, axe_man: None, touched: None, next_state: None };
    }
    match touched {
        None => Reaction { message: None, axe_man: Some(Animation::new_attack()), touched: None, next_state: None },
        Some(t) => {
            if t.iid == LANCER_IID {
                Reaction {
                    message: Some(VANQUISHED_MESSAGE.to_owned()),
                    axe_man: Some(Animation::new_attack()),
                    touched: Some(Animation::new_dying()),
                    next_state: Some(GameState::GameOver),
                }
            } else {
                match &t.replies {
                    Some(replies) => {
                        let text = replies[reply_index].clone();
                        Reaction { message: Some(text), axe_man: None, touched: None, next_state: None }
                    },
                    None => Reaction { message: None, axe_man: None, touched: None, next_state: None },
                }
            }
        },
    }
}

/// What the world does when the Axe Man strikes (`pressed`) at the spot in
/// front of him: someone who answers picks one of his replies at random with
/// `rng`, which is used for nothing else.
pub fn interact_key_events(pressed: bool, touched: &Option<Touched>, rng: &mut StdRand) -> (reaction: Reaction)
    requires
        picks_reply(pressed, *touched) ==> 0 < reply_count(*touched),
    ensures
        picks_reply(pressed, *touched) ==> exists|i: int|
            0 <= i < reply_count(*touched) && reaction@ == #[trigger] interaction(pressed, *touched, i),
        !picks_reply(pressed, *touched) ==> reaction@ == interaction(pressed, *touched, 0),
        !picks_reply(pressed, *touched) ==> *final(rng) == *old(rng),
{
    let mut index: usize = 0;
    if pressed {
        if let Some(t) = touched {
            if t.iid != LANCER_IID {
                if let Some(replies) = &t.replies {
                    index = random_index(rng, replies.len());
                }
            }
        }
    }
    interact_reaction(pressed, touched, index)
}

/// Which frame of the water's cycle a layer of the level shows, if it is one
/// of the four water layers.
pub open spec fn water_layer_frame(name: Seq<char>) -> Option<nat> {
    if name == "Water1"@ {
        Some(0)
    } else if name == "Water2"@ {
        Some(1)
    } else if name == "Water3"@ {
        Some(2)
    } else if name == "Water4"@ {
        Some(3)
    } else {
        None
    }
}

/// Whether a layer of the level is shown while the shared clock shows
/// `frame`: a water layer only on its own frame; other layers are left alone
/// (`None`).
pub fn animate_water(layer_name: &str, frame: usize) -> (shown: Option<bool>)
    ensures
        shown == match water_layer_frame(layer_name@) {
            Some(k) => Some(k == frame),
            None => None,
        },
{
    let target_frame: usize = if same_text(layer_name, "Water1") {
        0
    } else if same_text(layer_name, "Water2") {
        1
    } else if same_text(layer_name, "Water3") {
        2
    } else if same_text(layer_name, "Water4") {
        3
    } else {
        return None;
    };
    Some(target_frame == frame)
}

/// The game goes round Title, Playing, Game Over and back to Title: the start
/// keys lead from the title screen only to play and from the game-over screen
/// only back to the title; a step or a blow during play only ever ends the
/// game, and it does so exactly when the Lancer is involved.
pub proof fn lemma_game_goes_round(
    start_pressed: bool,
    touched_at_step: Option<u128>,
    terrain: Option<Seq<char>>,
    pressed: bool,
    touched_at_blow: Option<Touched>,
    index: int,
)
    ensures
        title_next_state(start_pressed) == Some(GameState::Playing) || title_next_state(start_pressed) is None,
        gameover_next_state(start_pressed) == Some(GameState::Title) || gameover_next_state(start_pressed) is None,
        move_outcome(touched_at_step, terrain).reaction_model().next_state == Some(GameState::GameOver)
            || move_outcome(touched_at_step, terrain).reaction_model().next_state is None,
        move_outcome(touched_at_step, terrain).reaction_model().next_state == Some(GameState::GameOver)
            <==> touched_at_step == Some(LANCER_IID),
        interaction(pressed, touched_at_blow, index).next_state == Some(GameState::GameOver)
            || interaction(pressed, touched_at_blow, index).next_state is None,
        interaction(pressed, touched_at_blow, index).next_state == Some(GameState::GameOver) <==> (pressed
            && touched_at_blow is Some && touched_at_blow.unwrap().iid == LANCER_IID),
{
}

/// A move needs exactly one key group held: otherwise nothing happens, no
/// turn, no step, no message and no change of screen. With one group held,
/// the Axe Man walks exactly when no entity stands at the destination and the
/// ground there is grass, dirt, a tree or a bridge, and the game ends exactly
/// when the Lancer stands there.
pub proof fn lemma_movement_needs_one_key(
    up: bool,
    right: bool,
    down: bool,
    left: bool,
    touched: Option<u128>,
    terrain: Option<Seq<char>>,
)
    ensures
        movement(up, right, down, left, touched, terrain) is None <==> (
            (up as int) + (right as int) + (down as int) + (left as int) != 1),
        (movement(up, right, down, left, touched, terrain) matches Some((_, outcome)) && outcome == MoveOutcome::Walk)
            <==> ((up as int) + (right as int) + (down as int) + (left as int) == 1 && touched is None
                && terrain is Some && terrain_of(terrain.unwrap()) == Terrain::Walkable),
        (movement(up, right, down, left, touched, terrain) matches Some((_, outcome))
            && outcome.reaction_model().next_state == Some(GameState::GameOver))
            <==> ((up as int) + (right as int) + (down as int) + (left as int) == 1 && touched == Some(LANCER_IID)),
        movement(up, right, down, left, touched, terrain) matches Some((_, outcome)) ==> (
            outcome.reaction_model().next_state is None
            || outcome.reaction_model().next_state == Some(GameState::GameOver)),
{
}

/// Only walking onto open ground and meeting the Lancer make anything happen
/// after a step: a walk starts the walking animation and nothing else; being
/// slain shows the slain message, starts the Axe Man's death and the
/// Lancer's attack, and ends the game; being blocked, or stopped by water,
/// the void or unknown ground, changes nothing at all.
pub proof fn lemma_only_walks_and_the_lancer_react(outcome: MoveOutcome)
    ensures
        outcome != MoveOutcome::Slain && outcome != MoveOutcome::Walk ==> outcome.reaction_model() == (ReactionModel {
            message: None,
            axe_man: None,
            touched: None,
            next_state: None,
        }),
        MoveOutcome::Walk.reaction_model() == (ReactionModel {
            message: None,
            axe_man: Some(AnimationModel::Walking),
            touched: None,
            next_state: None,
        }),
        MoveOutcome::Slain.reaction_model() == (ReactionModel {
            message: Some(SLAIN_MESSAGE@),
            axe_man: Some(AnimationModel::Dying {
                timer: TimerModel { duration: DYING_FRAME_NANOS as nat, elapsed: 0 },
                frame: 0,
            }),
            touched: Some(AnimationModel::Attack {
                timer: TimerModel { duration: ATTACK_FRAME_NANOS as nat, elapsed: 0 },
                frame: 0,
            }),
            next_state: Some(GameState::GameOver),
        }),
{
}

/// A blow at the Lancer always vanquishes him, whatever his level fields
/// hold and whichever reply would be chosen: the vanquished message, the Axe
/// Man's attack, the Lancer's death, and the end of the game.
pub proof fn lemma_striking_the_lancer_vanquishes(replies: Option<Vec<String>>, index: int)
    ensures
        interaction(true, Some(Touched { iid: LANCER_IID, replies }), index) == (ReactionModel {
            message: Some(VANQUISHED_MESSAGE@),
            axe_man: Some(AnimationModel::Attack {
                timer: TimerModel { duration: ATTACK_FRAME_NANOS as nat, elapsed: 0 },
                frame: 0,
            }),
            touched: Some(AnimationModel::Dying {
                timer: TimerModel { duration: DYING_FRAME_NANOS as nat, elapsed: 0 },
                frame: 0,
            }),
            next_state: Some(GameState::GameOver),
        }),
{
}

/// Touching the Lancer means death: whatever the ground, a step into the
/// Lancer slays the Axe Man, the Lancer strikes, and the game is over; any
/// other entity just blocks the way.
pub proof fn lemma_touching_the_lancer_is_death(touched: u128, terrain: Option<Seq<char>>)
    ensures
        move_outcome(Some(LANCER_IID), terrain) == MoveOutcome::Slain,
        MoveOutcome::Slain.reaction_model().axe_man == Some(AnimationModel::dying_start()),
        MoveOutcome::Slain.reaction_model().touched == Some(AnimationModel::attack_start()),
        MoveOutcome::Slain.reaction_model().next_state == Some(GameState::GameOver),
        touched != LANCER_IID ==> move_outcome(Some(touched), terrain) == MoveOutcome::Blocked,
        touched != LANCER_IID ==> move_outcome(Some(touched), terrain).reaction_model() == ReactionModel::nothing(),
{
}

/// The Axe Man walks on grass, dirt, trees and bridges and on nothing else:
/// never on water, into the void, or onto ground of an unknown kind.
pub proof fn lemma_walkable_ground(terrain: Option<Seq<char>>)
    ensures
        move_outcome(None, Some("grass"@)) == MoveOutcome::Walk,
        move_outcome(None, Some("dirt"@)) == MoveOutcome::Walk,
        move_outcome(None, Some("tree"@)) == MoveOutcome::Walk,
        move_outcome(None, Some("bridge"@)) == MoveOutcome::Walk,
        move_outcome(None, Some("water"@)) == MoveOutcome::Water,
        move_outcome(None, None) == MoveOutcome::Void,
        move_outcome(None, terrain) == MoveOutcome::Walk <==> (terrain is Some && (terrain.unwrap() == "grass"@
            || terrain.unwrap() == "dirt"@ || terrain.unwrap() == "tree"@ || terrain.unwrap() == "bridge"@)),
{
    reveal_strlit("grass");
    reveal_strlit("dirt");
    reveal_strlit("tree");
    reveal_strlit("bridge");
    reveal_strlit("water");
    assert("grass"@[0] != "water"@[0]);
    assert("dirt"@.len() != "water"@.len());
    assert("tree"@.len() != "water"@.len());
    assert("bridge"@.len() != "water"@.len());
}

/// The water shimmers: whichever frame the shared clock shows, exactly one of
/// the four water layers is shown, the one for that frame; no layer but these
/// four is ever shown or hidden.
pub proof fn lemma_one_water_layer_at_a_time(frame: nat)
    requires
        frame < 4,
    ensures
        water_layer_frame("Water1"@) == Some(0nat),
        water_layer_frame("Water2"@) == Some(1nat),
        water_layer_frame("Water3"@) == Some(2nat),
        water_layer_frame("Water4"@) == Some(3nat),
        forall|name: Seq<char>| #[trigger] water_layer_frame(name) is Some ==> (name == "Water1"@ || name
            == "Water2"@ || name == "Water3"@ || name == "Water4"@),
        forall|name: Seq<char>| #[trigger] water_layer_frame(name) == Some(frame) ==> (
            (frame == 0 ==> name == "Water1"@) && (frame == 1 ==> name == "Water2"@)
            && (frame == 2 ==> name == "Water3"@) && (frame == 3 ==> name == "Water4"@)),
{
    reveal_strlit("Water1");
    reveal_strlit("Water2");
    reveal_strlit("Water3");
    reveal_strlit("Water4");
    assert("Water1"@[5] != "Water2"@[5]);
    assert("Water1"@[5] != "Water3"@[5]);
    assert("Water1"@[5] != "Water4"@[5]);
    assert("Water2"@[5] != "Water3"@[5]);
    assert("Water2"@[5] != "Water4"@[5]);
    assert("Water3"@[5] != "Water4"@[5]);
}

} // verus!
