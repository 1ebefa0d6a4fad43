//! A quota monitor for teams that share subscriptions: clients report their
//! token usage, the server stores the reports, and users and admins query
//! per-user summaries. This library holds the server's decisions: how a
//! request is authorised, what each endpoint answers for what the database
//! gave back, which queries the database is asked, and the dashboard page.

pub mod admin;
pub mod api;
pub mod auth;
pub mod dashboard;
pub mod db;
pub mod models;
