pub mod commands;
pub mod fido2_devices;
pub mod header_json;
pub mod json;
pub mod luks_header;
pub mod output;
pub mod random;
pub mod token_json;
