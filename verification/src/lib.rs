//! Action-safety pipeline: mining, ranking, sandboxing, gating, execution with
//! rollback, and a tabular policy that learns from outcomes.
//!
//! Every quantity that is a fraction or a measurement is a decimal fixed-point
//! number: an `i64` that counts millionths (see [`fixed`]).

pub mod analytics;
pub mod api;
pub mod auto_action;
pub mod beta;
pub mod clock;
pub mod cognitive_twins;
pub mod cohort;
pub mod compliance;
pub mod consent;
pub mod edge;
pub mod emotion;
pub mod emotional_copilot;
pub mod enterprise;
pub mod federated;
pub mod fixed;
pub mod knowledge_loop;
pub mod launch;
pub mod listing;
pub mod local_stack;
pub mod marketplace;
pub mod microlearning;
pub mod models;
pub mod multi_region;
pub mod pattern_miner;
pub mod plugin;
pub mod privacy;
pub mod rag;
pub mod rag_expanded;
pub mod reflection;
pub mod replay;
pub mod report;
pub mod rl_policy;
pub mod sandbox;
pub mod scheduling;
pub mod security;
pub mod shortcut;
pub mod strmap;
pub mod text;
pub mod types;
pub mod victory;
pub mod wisdom;
