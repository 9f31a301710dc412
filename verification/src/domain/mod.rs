pub mod decision;
pub mod rule;
pub mod task;
