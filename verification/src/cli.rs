//! What the commands of the program decide and print.

pub mod commands;
