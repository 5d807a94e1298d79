//! A small logging facade: a process-wide target name, an initializer driven
//! by a YAML configuration file, and a codec between a 128-bit UUID value and
//! its 32-character hyphen-less hexadecimal "log_id" form.

mod hex;
mod log_id;
mod logger;

pub use hex::is_hex_digit;
pub use hex::hex_digit_char;
pub use hex::hex_digit_val;
pub use log_id::LogUuid;
pub use log_id::LogIdFormat;
pub use log_id::log_id_seq;
pub use log_id::valid_log_id;
pub use log_id::decoded_bytes;
pub use log_id::uuid_wf;
pub use log_id::lemma_log_id_round_trip;
pub use log_id::fresh_log_uuid;
pub use log_id::fresh_log_id;
pub use logger::Logger;
pub use logger::default_target;
pub use logger::default_config_path;
pub use logger::log_line;
pub use logger::resolve_config_path;
pub use logger::compose_log_line;
pub use logger::missing_config_message;
pub use logger::init_error_message;
pub use logger::init_success_message;
