pub mod ordering;
pub mod race_detector;
