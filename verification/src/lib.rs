//! Sessions of agents that speak the Agent Client Protocol, kept running in the
//! background so that a user can come back to them.
//!
//! A session has a record on disk, an owner, which runs the agent and answers
//! clients on a socket, and a guardian, which notes how the owner ended. This
//! library decides everything that the processes do; what they read, write, send
//! and start is the work of the program around it.
//!
//! - `text`, `json`, `clock`: strings, JSON documents and time stamps.
//! - `paths`, `workspace`, `command`: file names, the directory that an agent may
//!   touch, and command lines.
//! - `record`, `sessions`, `cleanup`: the record of a session, the commands on
//!   sessions, and what is removed when it is no longer needed.
//! - `events`, `prompt`: what a client asks, and what it shows.
//! - `acp`, `answer`, `serve`, `turn`, `logs`: the calls to an agent, their
//!   answers, the requests of the agent, a turn of the conversation, and what is
//!   kept of the agent's output.
//! - `daemon`: the owner of a session and its guardian.
pub mod acp;
pub mod answer;
pub mod cleanup;
pub mod clock;
pub mod command;
pub mod daemon;
pub mod events;
pub mod json;
pub mod logs;
pub mod paths;
pub mod prompt;
pub mod record;
pub mod serve;
pub mod sessions;
pub mod text;
pub mod turn;
pub mod workspace;
