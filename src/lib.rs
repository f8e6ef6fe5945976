pub mod outcome;
pub mod task;
pub mod outside;
pub mod fetch;
