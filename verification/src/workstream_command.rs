//! The commands of a workstream.
pub mod action_auth;
pub mod handoffs;
