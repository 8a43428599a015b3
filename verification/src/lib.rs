//! Distributed locking backed by Redis, with its decision logic verified.

pub mod bank;
pub mod command;
pub mod multi;
pub mod outside;
pub mod single;
pub mod text;
