mod date_parser;
mod dates;
mod lexer;
mod recognizable;

pub mod language;

pub use crate::date_parser::DateParser;
pub use crate::dates::Date;
pub use crate::dates::Weekday;
pub use crate::language::date_format::DateFormat;
pub use crate::language::en::en_date_parser::EnDateParser;
pub use crate::language::start_day_of_week::StartDayOfWeek;
pub use crate::lexer::Token;
pub use crate::recognizable::Recognizable;
