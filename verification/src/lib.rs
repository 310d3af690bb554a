//! Ludusavi Sync: the game-save synchronisation front end's verified core.
pub mod accela;
pub mod cloud;
pub mod common;
pub mod control;
pub mod editing;
pub mod game_list;
pub mod icon;
pub mod lang;
pub mod layout;
pub mod modal;
pub mod notification;
pub mod prelude;
pub mod resource;
pub mod scan;
pub mod search;
pub mod shortcuts;
pub mod steps;
pub mod text;
