pub mod value;
pub mod path;
pub mod key;
pub mod schema;
pub mod set_metadata_field;
