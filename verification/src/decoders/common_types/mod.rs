pub mod sda;
pub mod surveillancestatus;
