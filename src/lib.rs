//! A horde of monsters striking one shared character, one serialized hit at a
//! time, and a bounds-checked model of offset-addressed writes into a buffer.

pub mod video_game_case;
pub mod attack_orchestration;
pub mod raw_pointer_study;
