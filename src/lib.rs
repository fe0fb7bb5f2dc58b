pub mod attack;
pub mod codec;
pub mod gate;
pub mod recli;
pub mod resolver;
pub mod setup;
