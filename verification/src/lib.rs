//! The state engine of a terminal dashboard for host resource usage.
//!
//! The crate holds the parts of the dashboard that decide something: the
//! sampler state with its fixed-length usage histories, the console and its
//! small command language, the application state that commands act on, and
//! the partition of the screen into panels. Reading the operating system,
//! the terminal and the drawing of widgets are left to the program that
//! embeds it.

pub mod app;
pub mod command;
pub mod console;
pub mod dashboard;
pub mod history;
pub mod layout;
pub mod parser;
pub mod sorting;
pub mod system;
pub mod text;
