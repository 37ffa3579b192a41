//! colza: a color picker and contrast checker.
//!
//! This is the part of the program that decides and computes. It reads and
//! writes colors ([`color`], [`row`]), grades the contrast between two of them
//! ([`color`], [`criteria`]), repacks the frames of a screen cast ([`frame`],
//! [`stream`]), decides where the magnifier's pixels come from ([`screencast`])
//! and what it does with them ([`magnifier`]), and holds the state of the
//! window ([`app`]).
//!
//! Windows, the desktop portal, the media server, files, and arithmetic on real
//! numbers are left to the program that uses it.
pub mod app;
pub mod color;
pub mod criteria;
pub mod frame;
pub mod magnifier;
pub mod row;
pub mod screencast;
pub mod shot;
pub mod stream;
pub mod text;
pub mod token_store;
