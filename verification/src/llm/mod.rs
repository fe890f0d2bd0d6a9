//! The local-LLM side of the toolkit: errors, prompts, deployment profiles,
//! configuration checks, metrics, the response cache and batch bookkeeping.
//! Network requests and async plumbing live with the application.

pub mod error;
pub mod prompts;
pub mod production;


pub mod types;
pub mod metrics;
pub mod cache;
pub mod config;
pub mod engine;
pub mod batch;
pub mod client;
