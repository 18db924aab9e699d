//! Routing between saved logins of a command line client.
//!
//! One login, a team account, runs into its quota; another one, an enterprise
//! account, takes over until the quota starts anew. This library decides what to
//! show, what to store and where to switch; the program around it reads files,
//! calls tools and prints.
//!
//! - [`program`], [`domain`]: who is served and what is kept.
//! - [`quota`], [`routing`], [`statusline`], [`plan_statusline`]: what the quota
//!   says and where it leads.
//! - [`keychain`], [`switcher`], [`detection`], [`setup`]: what is asked of the
//!   Keychain, step by step.
//! - [`commands`], [`app`], [`settings`], [`context`], [`notification`],
//!   [`subscription`]: the rest of the commands.
//! - [`text`], [`names`], [`json`], [`util`]: what all of it is made of.
//! - [`text_laws`], [`statusline_laws`], [`command_laws`], [`step_laws`]: what
//!   holds of each part.
//! - [`switch_laws`], [`state_laws`]: what holds of all of it together.

pub mod text;
pub mod names;
pub mod json;
pub mod util;

pub mod domain;
pub mod program;

pub mod quota;
pub mod routing;
pub mod statusline;
pub mod plan_statusline;

pub mod keychain;
pub mod switcher;
pub mod detection;
pub mod setup;

pub mod subscription;
pub mod context;
pub mod settings;
pub mod notification;
pub mod commands;
pub mod app;

pub mod text_laws;
pub mod statusline_laws;
pub mod command_laws;
pub mod switch_laws;
pub mod step_laws;
pub mod state_laws;
