pub mod load;
pub mod schema;
pub mod text;
pub mod typed_generator;
