//! Tracks where a nixpkgs pull request has landed: the decisions behind the
//! GitHub API calls, the pull request page and the chat bot.

pub mod text;
pub mod github;
pub mod ratelimit;
pub mod call;
pub mod web;
pub mod discord;
pub mod database;
