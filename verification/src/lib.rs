mod gen;
pub mod laws;
pub mod player;
pub mod room;
pub mod settings;
