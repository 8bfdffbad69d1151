//! Verified core of a service that mirrors UniFi Protect motion clips to
//! backup destinations: the recorder's binary push codec, the event ledger,
//! the event-lifecycle rules, the session re-authentication decisions and the
//! destination planning that the maintenance loops follow.
pub mod archive;
pub mod backup;
pub mod chunks;
pub mod codec;
pub mod config;
pub mod dispatch;
pub mod events;
pub mod ledger;
pub mod listener;
pub mod models;
pub mod reauth;
pub mod retention;
pub mod session;
pub mod template;
pub mod text;
