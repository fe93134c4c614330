//! Update checking and installation for a desktop application shell.
//!
//! The library holds the decisions of the update flow: what a check reports,
//! what happens to the single pending-update slot, which error text the user
//! interface receives, and in which order download events are emitted. The
//! network, the disk and the GUI framework stay with the caller, who performs
//! each outside step and hands its outcome back as plain values.
pub mod progress;
pub mod shell;
pub mod update;
