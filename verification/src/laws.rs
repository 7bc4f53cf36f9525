//! What holds of the library as a whole, stated over the models that the functions' own contracts
//! speak of, and, with `call_ensures`, over every result that a function's contract admits.

pub mod attribution;
pub mod copies;
pub mod flow;
pub mod lifecycle;
pub mod log;
pub mod probe;
pub mod rules;
pub mod text;
