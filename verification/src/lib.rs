//! The rules of a daily "fact of the day" job.
//!
//! Once a day the job draws a random seed, asks an encyclopedia for a few
//! unrelated article titles, fills both into a prompt, posts the prompt to a
//! generative service and decodes the fact that comes back. This library holds
//! what the job decides and computes, each function with a contract that
//! Verus proves; reading files and talking to the network is left to the
//! caller, who is told what to do by [`job::advance`].
//!
//! - [`text`]: literal substitution of a token, and joining
//! - [`seed`]: the random seed
//! - [`prompt`]: the request body, made from templates
//! - [`json`]: what `serde_json` parses, and the trusted contracts on it
//! - [`wiki`]: the encyclopedia's response
//! - [`ai`]: the generative service's response
//! - [`error`]: why a run failed
//! - [`job`]: one run as a state machine

pub mod ai;
pub mod error;
pub mod job;
pub mod json;
pub mod prompt;
pub mod seed;
pub mod text;
pub mod wiki;
