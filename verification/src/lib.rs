//! A personal task list: tasks with due dates, recurrence, grouping and a
//! completion flag, the store that numbers them, the form that validates raw
//! input, and the presenter that lays them out in columns.

pub mod text;
pub mod repeat;
pub mod configuration;
pub mod utils;
pub mod task;
pub mod task_form;
pub mod app;
pub mod cli;
