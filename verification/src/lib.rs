//! A snake-on-a-grid simulation: the snake, the board and the rules that
//! advance them, with every transition stated over mathematical views.

pub mod food;
pub mod game;
pub mod random;
pub mod snake;
