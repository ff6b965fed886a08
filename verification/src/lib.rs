pub mod bits;
pub mod modbus_device_cache;
pub mod range_cover;
pub mod cover_lower_bound;
pub mod cover_chosen;
pub mod cover_set;
pub mod text;
pub mod register_table;
pub mod registers;
pub mod modbus;
pub mod commands;
pub mod connection;
pub mod output;
pub mod homie;
