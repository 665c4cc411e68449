pub mod chars;
pub mod error;
pub mod keywords;
pub mod laws;
pub mod model;
pub mod operators;
pub mod position;
pub mod progress;
pub mod scanner;
pub mod suffix;
pub mod token;
pub mod token_type;

pub use position::Position;
pub use token::Token;
pub use token_type::TokenType;
