pub mod player_chat;
pub mod player_execute_command;
pub mod player_join;
pub mod player_leave;
pub mod world_tick;
