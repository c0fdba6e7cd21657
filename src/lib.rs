//! Request authentication and credential management: password hashing and
//! checking, signed identity tokens, per-request guards, and the error
//! taxonomy that maps every failure onto one transport status.

pub mod demo;
pub mod domain;
pub mod dto;
pub mod error;
pub mod guard;
pub mod token;
pub mod usecases;
pub mod vault;
