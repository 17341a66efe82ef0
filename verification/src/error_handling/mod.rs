pub mod deserialization_error;
