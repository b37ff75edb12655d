//! The rules of the Axe Man's adventure: the frame clocks, the animation
//! state machine, the compass directions and the game's reactions to what
//! the Axe Man runs into or strikes at.

pub mod timer;
pub mod direction;
pub mod animation;
pub mod game;
