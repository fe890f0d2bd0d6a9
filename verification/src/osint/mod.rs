//! The OSINT side of the toolkit: entity records, source configuration, the
//! threat-actor feed and the analyses built on it (timelines, geography,
//! attribution, correlation, detection rules). Queries to outside services
//! live with the application.

pub mod models;


pub mod config;
pub mod cache;
pub mod threat_feeds;
pub mod geolocation;
pub mod timeline;
pub mod attribution;
pub mod correlation;
pub mod detection_rules;
pub mod sources;
pub mod incident;
pub mod persistence;
pub mod campaign_planner;
pub mod counter_defense;
pub mod social_engineering;
pub mod infrastructure;
pub mod supply_chain;
