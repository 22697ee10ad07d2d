//! Evidence gate that decides, before any npm package code runs, whether an
//! `npx`-style command may proceed.

pub mod authority_context;
pub mod bin_selection;
pub mod canary;
pub mod cli;
pub mod closure;
pub mod closure_blockers;
pub mod contracts;
pub mod delegation_feasibility;
pub mod direct_execution;
pub mod download;
pub mod evidence;
pub mod executable_identity;
pub mod extraction;
pub mod fixtures;
pub mod inspect;
pub mod inspect_json;
pub mod inspect_json_schema;
pub mod inspect_latency;
pub mod inspect_receipt;
pub mod inspect_model;
pub mod integrity;
pub mod json;
pub mod json_out;
pub mod json_sort;
pub mod m2_fixtures;
pub mod m2_report;
pub mod manifest;
pub mod numbers;
pub mod package_metadata;
pub mod parser;
pub mod policy;
pub mod policy_time;
pub mod race_matrix;
pub mod redaction;
pub mod registry;
pub mod registry_precedence;
pub mod report;
pub mod report_inspect;
pub mod report_json;
pub mod report_optional_evidence;
pub mod resolver;
pub mod text;
