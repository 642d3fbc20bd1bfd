pub mod parser;
pub mod worker;
