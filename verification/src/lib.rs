use vstd::prelude::*;

pub mod json;
pub mod args;
pub mod reply;
pub mod dispatch;
pub mod table;
pub mod table_members;
pub mod server;
pub mod commands;
pub mod seed;
pub mod startup;
pub mod logging;
