//! Watches the processes of a host against a list of user-defined triggers and
//! decides what to publish to a broker when a watched process starts or stops.
//!
//! Everything here works on plain values: the caller samples the process table,
//! talks to the broker and touches the disk, and hands the results in.

pub mod commands;
pub mod fetch_processes;
pub mod logger;
pub mod mqtt;
pub mod mqtt_settings;
pub mod process_entry;
pub mod setup;
pub mod sorting;
pub mod storage;
