pub mod en_date_parser;
pub mod expressions;
