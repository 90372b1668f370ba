pub mod errors;
pub mod hooks;
pub mod keyslot_guard;
pub mod mapping_name;
pub mod paths;
pub mod preflight;
pub mod progress;
pub mod types;
pub mod workflows;
