pub mod date_format;
pub mod en;
pub mod resolver;
pub mod shared;
pub mod shared_date_parser;
pub mod start_day_of_week;
