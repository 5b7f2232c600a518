//! The capability interpreter: the parameterised-string language embedded
//! in terminfo string capabilities, as a parser to a flat instruction
//! stream, a printf-subset formatter, and a small stack machine that
//! executes the stream.

pub mod argument;
pub mod executor;
pub mod parser;
pub mod printf;

pub use argument::ArgV;
pub use argument::Argument;
pub use executor::ExecutionEnvironment;
pub use executor::Executor;
pub use parser::Op;
pub use parser::Parser;
