pub mod ball;
pub mod game;
pub mod geometry;
pub mod paddle;
