//! A feed-subscription bot for chat servers: the decisions behind each
//! command, verified, with the network and storage left to the caller.

pub mod text;
pub mod structs;
pub mod links;
pub mod feed;
pub mod feed_list;
pub mod commands;
pub mod database;
pub mod events;
pub mod laws;
pub mod feed_input;
