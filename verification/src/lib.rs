//! Verified core of the solar pool controller front end: the credential and
//! cookie rules, the decimal text of the power readings, and the decisions that
//! turn MQTT traffic from the pool controller into storage updates, websocket
//! signals and published commands.

pub mod models;
pub mod text;
pub mod cookie;
pub mod auth;
pub mod json;
pub mod bridge;
pub mod server;
