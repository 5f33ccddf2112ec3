//! The interactive command line: what each typed line asks for.

pub mod commands;
pub mod settings;
pub mod words;
