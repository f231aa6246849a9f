use vstd::prelude::*;

pub mod configuration;
pub mod data;
pub mod fallback_camera;
pub mod iteration;
pub mod lengths;
pub mod plugin;
pub mod runtime;
pub mod task;
pub mod task_deleter;
