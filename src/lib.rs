//! An incremental build engine for C and C++ projects: it resolves a project
//! description into compiler, linker and archiver invocations, decides which
//! sources changed since the last build, and keeps a compilation database.
pub mod argv;
pub mod builder;
pub mod cache;
pub mod commands;
pub mod compdb;
pub mod config;
pub mod error;
pub mod pathmap;
pub mod paths;
pub mod resolve;
