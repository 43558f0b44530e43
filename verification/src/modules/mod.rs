//! The measurers: the capability interface and its concrete
//! implementations, one per artifact class.

pub mod file_measurer;
pub mod measurable;

pub use file_measurer::FileMeasurer;
pub use measurable::Measurable;
