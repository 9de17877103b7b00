//! Verified core of an event-driven guild automation worker.
//!
//! The worker consumes a stream of gateway events and a backlog of timed
//! campaigns, and hands each to the plugins that a guild has enabled. This
//! crate holds its decisions: which plugins an event is handed to, which
//! campaigns a sweep claims, when and how a claimed campaign is completed,
//! and what each plugin makes of an event.
//!
//! Nothing here waits on a network, a store or a queue. Where a decision
//! needs an answer from outside, the crate says what to ask, and the caller
//! hands the answer back:
//!
//! - [`gateway`] takes a first look at a delivery of the queue;
//! - [`event`] is what the worker reads of an event;
//! - [`plugin`] and [`plugin_config`] are the plugin contract, the registry
//!   and the resolver of a guild's enabled plugins;
//! - [`dispatch`] fans an event out and isolates the failures of plugins;
//! - [`periodic`] drives the periodic path of every plugin;
//! - [`models`] and [`scheduler`] are the campaign records and the sweep
//!   that claims them, once each;
//! - [`timers`] and [`giveaways`] complete a claimed campaign, by way of the
//!   commands of [`effects`];
//! - [`message_counting`], [`invite_counting`], [`server_indexer`],
//!   [`utility`], [`dank_memer`], [`date_transform`] and [`math_solving`]
//!   are the other plugins;
//! - [`pub_sub`] is the envelope of a published message;
//! - [`text`] reads and writes numbers and replaces text;
//! - [`trusted`] holds the calls into other crates, whose contracts are
//!   taken on trust.

pub mod dank_memer;
pub mod date_transform;
pub mod dispatch;
pub mod effects;
pub mod event;
pub mod gateway;
pub mod giveaways;
pub mod invite_counting;
pub mod math_solving;
pub mod message_counting;
pub mod models;
pub mod periodic;
pub mod plugin;
pub mod plugin_config;
pub mod pub_sub;
pub mod scheduler;
pub mod server_indexer;
pub mod text;
pub mod timers;
pub mod trusted;
pub mod utility;
