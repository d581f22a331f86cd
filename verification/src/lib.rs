pub mod codec;
pub mod coffee_order_type;
pub mod coffee_type;
pub mod database;
pub mod decimal;
pub mod errors;
pub mod graphql_schema;
pub mod strutil;
