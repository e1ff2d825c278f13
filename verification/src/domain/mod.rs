pub mod sensor_data;
