pub mod scd40;
pub mod sen55;
pub mod sensirion;
pub mod sfa30;
