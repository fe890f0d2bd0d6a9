//! Threat-intelligence tooling: an IOC feed parser and multi-pattern scanner,
//! a searchable detection catalog, and the decision logic of an OSINT and
//! local-LLM analysis toolkit, with their behaviour stated as Verus contracts.

pub mod text;
pub mod keyed;
pub mod ioc;
pub mod scanner;
pub mod json;
pub mod catalog;
pub mod catalog_commands;
pub mod event_analysis;
pub mod llm;
pub mod osint;
pub mod framework;
pub mod technique_index;
pub mod paths;
pub mod scenario_report;
pub mod sweep;
pub mod digest;
