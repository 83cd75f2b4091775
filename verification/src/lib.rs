//! Scheduling, persistence records and actuation sequencing for an automatic pet feeder.

pub mod feeder;
pub mod persistant_schedule_storage;
pub mod schedule;
pub mod servo;
pub mod timestamp;
pub mod weekday;
