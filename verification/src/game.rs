pub mod entity;
pub mod game;
pub mod game_state;
pub mod lua_context;
pub mod script_manager;
