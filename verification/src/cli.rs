//! What the command line shows: the choice of tasks to list, their order,
//! and their layout in columns.

pub mod formats;
pub mod cli_utils;
pub mod ls;
pub mod add;
