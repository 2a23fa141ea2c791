pub mod output;
pub mod quote;
