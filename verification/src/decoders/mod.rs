pub mod aircraftjson;
pub mod beast;
pub mod beast_helpers;
pub mod beast_types;
pub mod common_types;
pub mod helpers;
pub mod json;
pub mod json_types;
pub mod raw_types;
