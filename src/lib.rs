//! A todo list kept as two flat collections: todo records and the names of
//! user-registered categories. The library holds the rules of every command;
//! reading and writing the stored files is left to the caller.

pub mod category;
pub mod todo;
pub mod render;
pub mod paths;
pub mod command;
pub mod run;
