pub mod messagetype;
