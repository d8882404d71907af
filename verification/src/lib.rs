pub mod computer;
pub mod device_id;
pub mod gsm_id;
pub mod monitor_name;
pub mod laws;
pub mod monitor;
pub mod numerals;
pub mod position;
pub mod resolution;
pub mod rng;
pub mod sorting;
pub mod util;
pub mod video_output;
pub mod win32;
