pub mod events;
pub mod rules;
pub mod schema;
