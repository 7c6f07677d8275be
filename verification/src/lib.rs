//! A verified protocol engine for a line-oriented game "renderer server".
//!
//! A game's logic runs in a child process and talks to a host front-end over
//! the child's standard input and output, one command per line.  This crate
//! holds the engine itself: the line parser, the handshake negotiator, the
//! per-tick input encoder, the frame-command interpreter with its persistent
//! render registers, the texture cache with negative caching, and the
//! process-lifecycle decisions.  The host (window loop, pipes, rasterizer)
//! stays outside and drives these functions with plain values.

pub mod cache;
pub mod color;
pub mod fixed;
pub mod frame;
pub mod init;
pub mod input;
pub mod lifecycle;
pub mod lines;
pub mod render;
pub mod server;
