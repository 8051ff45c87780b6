//! The LEGO Wireless Protocol: constants, message types, payloads and frames.
pub mod communicator;
pub mod consts;
pub mod encoding;
pub mod errors_handler;
pub mod message_parameters;
pub mod message_types;

pub use self::communicator::CommonMessageHeader;
pub use self::communicator::MAX_MESSAGE_SIZE;
pub use self::errors_handler::check_for_lego_error;
pub use self::message_types::MessageTypes;
pub use self::message_types::SubcommandType;
