pub mod advertiser;
pub mod sensor_packet;
