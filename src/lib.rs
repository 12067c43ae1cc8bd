pub mod classes;
pub mod functions;
pub mod matrix;
