pub mod functions;
pub mod patterns;
