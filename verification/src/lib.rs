//! Verified logic of a sensor station: sensor register codecs, CRCs,
//! measurement histories, the flash record format and the HTTP API.

pub mod history;
pub mod crc;
pub mod sensirion;
pub mod sht41;
pub mod scd41;
pub mod sps30;
pub mod flash_store;
pub mod text;
pub mod shared_state;
pub mod http;
pub mod schedule;
pub mod registers;
pub mod bmp581;
pub mod opt4048;
pub mod as7343;
pub mod bmm350;
pub mod bme690;
pub mod mlx90640;
pub mod psram;
pub mod i2c_bus;
pub mod json;
