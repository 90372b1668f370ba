pub mod fido2_backend;
pub mod filesystem_backend;
pub mod luks_backend;
pub mod journal;
