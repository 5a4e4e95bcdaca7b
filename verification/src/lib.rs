//! Run-time kernel of a translation tool: typed project logging, recoverable
//! directory publication and SQLite transaction control.

pub mod candidate;
pub mod cpu;
pub mod diagnostic;
pub mod diagnostic_laws;
pub mod file_system;
pub mod fingerprint;
pub mod lease;
pub mod log_acceptance;
pub mod log_emission_laws;
pub mod log_errors;
pub mod log_event;
pub mod log_event_laws;
pub mod log_health;
pub mod log_health_laws;
pub mod log_laws;
pub mod log_loop;
pub mod log_payload;
pub mod log_producer;
pub mod log_runtime;
pub mod log_session;
pub mod log_terminal;
pub mod log_writer;
pub mod log_writing_laws;
pub mod message_laws;
pub mod order;
pub mod ordered_map;
pub mod path_index;
pub mod path_laws;
pub mod performance;
pub mod publication;
pub mod publication_laws;
pub mod run_id;
pub mod scoped;
pub mod search;
pub mod sqlite_bulk;
pub mod sqlite_copy;
pub mod sqlite_creation;
pub mod sqlite_database;
pub mod sqlite_deeds;
pub mod sqlite_error;
pub mod sqlite_file_laws;
pub mod sqlite_flow_laws;
pub mod sqlite_laws;
pub mod sqlite_open;
pub mod sqlite_plan;
pub mod sqlite_plan_laws;
pub mod sqlite_query;
pub mod sqlite_report_laws;
pub mod sqlite_row;
pub mod sqlite_session;
pub mod sqlite_storage;
pub mod sqlite_target;
pub mod sqlite_transaction;
pub mod sqlite_wait;
pub mod text;
pub mod text_order;
pub mod vectors;
pub mod windows;
pub mod windows_laws;
pub mod windows_path;
pub mod windows_walk;
