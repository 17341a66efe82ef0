pub mod beast_mlat;
pub mod messagetype;
