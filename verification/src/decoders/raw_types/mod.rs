pub mod typecoding;
