//! Client-side logic for deploying a locally built web application to the
//! Oxyde Cloud hosting platform.
//!
//! The crate holds no I/O of its own. A caller lists the build output, reads
//! file bytes and speaks HTTP; this crate decides what is uploaded, how each
//! file is cut into chunks, what every request contains, how every reply is
//! read, and when the deployment may be committed.
//!
//! - [`files`] picks the files of a deployment from directory listings.
//! - [`chunk`] cuts a file into chunks, and [`plan`] puts the chunks of all
//!   files in order.
//! - [`request`] describes requests as values, [`client`] builds the
//!   requests of the platform, and [`net`] reads the replies.
//! - [`session`] is the state machine of one deployment, and [`trace`]
//!   states what holds of every run of it.
//! - [`config`] holds the manifest of a deployment, [`layout`] the places of
//!   a build, and [`commands`] the decisions of the command-line front end.

pub mod chunk;
pub mod client;
pub mod commands;
pub mod config;
pub mod error;
pub mod files;
pub mod json;
pub mod layout;
pub mod net;
pub mod plan;
pub mod request;
pub mod session;
pub mod text;
pub mod trace;
