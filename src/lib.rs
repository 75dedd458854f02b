//! Sorting a list of student usernames into those that resolve to an account
//! on the course's hosting service and those that do not.
//!
//! The library holds the pure parts of that job: reading the identifier list
//! and the access token out of file text, choosing the account id from a
//! lookup's answer, splitting the students by the answers, and rendering the
//! two result files. Fetching, printing and writing files are left to callers.
pub mod text;
pub mod input;
pub mod outcome;
pub mod cli;
pub mod query;

pub use input::parse_csv_file;
