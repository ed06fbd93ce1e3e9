//! Descriptive statistics: the selection and grouping logic behind the
//! median, the mode and the range, verified over any element type.
pub mod median;
pub mod mode;
pub mod range;
