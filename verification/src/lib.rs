//! Session broker between instrumented applications (producers) and inspector
//! dashboards (consumers).
//!
//! A producer registers, and from then on streams samples, log records and
//! answers to actions. The broker keeps a bounded history of each producer's
//! session, fans every event out to the attached consumers, routes the
//! actions that consumers issue to the right producer, and lets a producer
//! that comes back take its session up again.
//!
//! The broker's parts, from the leaves up:
//!
//! - [`protocol`]: the messages, and the limits a LOG has to keep;
//! - [`ring_buffer`]: the bounded history;
//! - [`session`]: one producer's session, and the registry of all sessions
//!   and attached consumers;
//! - [`handlers`]: the state machines of a producer and of a consumer
//!   connection, and the fan-out;
//! - [`outbox`], [`time`], [`json`]: the queues toward the peers, the clock,
//!   and the payloads that the broker carries unread.
//!
//! Around the broker: [`config`], [`tls`], [`discovery`], [`dashboard`] and
//! [`service`] decide what the program around it needs decided, and
//! [`mock_app`] and [`test_runner`] serve end-to-end runs.
//!
//! Contracts are stated over views: a [`session::Session`] is seen as a
//! [`session::SessionView`], the [`session::SessionManager`] as a
//! [`session::RegistryView`], and each operation says which view it leaves
//! behind.

pub mod config;
pub mod dashboard;
pub mod discovery;
pub mod handlers;
pub mod json;
pub mod mock_app;
pub mod outbox;
mod paths;
pub mod protocol;
pub mod ring_buffer;
pub mod service;
pub mod session;
pub mod test_runner;
pub mod text;
pub mod time;
pub mod tls;
