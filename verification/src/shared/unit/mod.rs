pub mod definition;
pub mod dimensions;
pub mod laws;
pub mod props;
pub mod units;
