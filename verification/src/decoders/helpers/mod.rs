pub mod hexadecimal;
pub mod prettyprint;
pub mod strings;
