//! The commands that a desktop shell offers its frontend: a greeting and a
//! query for the application's version. Both are pure functions of their
//! arguments, with contracts that fix their results exactly.

pub mod greeting;
pub mod version;

pub use greeting::greet;
pub use version::get_app_version;
