//! A session coordinator for a multi-round word-guessing game.
//!
//! The coordinator sits between a caller and an independently-owned game
//! service.  It owns no game logic itself: it validates each inbound action
//! against the current session phase, forwards start and guess requests to
//! the game service, suspends the caller's call while a forwarded request is
//! in flight, correlates the asynchronous reply, and resumes the caller with
//! a final answer.
//!
//! The library is the pure state machine: every transition is a function
//! from the session record and an input to the next record and a command for
//! the host runtime (reply to the caller, or forward a request and suspend).
//! The host runtime that actually delivers messages, suspends and resumes
//! calls lives outside the library and performs the commands it is handed.

pub mod laws;
pub mod model;
pub mod session;
pub mod types;
