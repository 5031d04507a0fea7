//! A gateway in front of one heavyweight local inference backend.
//!
//! Only one backend process can run at a time, bound to one model, one
//! context size and one level of parallelism. The gateway owns that process:
//! it starts it on demand, stops it, and swaps it when another model is
//! asked for. This library holds the decisions of the gateway; waiting,
//! spawning and talking HTTP are left to its caller.
//!
//! - [`process`] is the engine: the state of the managed process and the
//!   transition on each event; [`lifecycle`] states what holds over whole
//!   sequences of events.
//! - [`llamacpp`] and [`comfyui`] are the backends: launch configurations and
//!   the command lines built from them, with [`cli`], [`env`], [`on_off`] and
//!   [`context_size`] for their parts and [`equality`] for `==` on them.
//! - [`catalog`] holds the model definitions, expands them by context-size
//!   tier and resolves requested aliases; [`alias`] reads and writes aliases
//!   that name a tier; [`modellist`] and [`llmodels`] are the lists shown to
//!   clients; [`error`] tells which files a catalog is loaded from.
//! - [`selection`] decides each round of the loop that drives the backend
//!   toward a requested model.
//! - [`gateway`], [`prompt`], [`chat_body`], [`forward`], [`chat_page`],
//!   [`response`] and [`apikey`] are the rules of the request surface.
//! - [`text`] and [`conversions`] serve the rest.

pub mod alias;
pub mod apikey;
pub mod catalog;
pub mod chat_body;
pub mod chat_page;
pub mod cli;
pub mod comfyui;
pub mod context_size;
pub mod conversions;
pub mod env;
pub mod equality;
pub mod error;
pub mod forward;
pub mod gateway;
pub mod lifecycle;
pub mod llamacpp;
pub mod llmodels;
pub mod modellist;
pub mod on_off;
pub mod process;
pub mod prompt;
pub mod response;
pub mod selection;
pub mod text;
