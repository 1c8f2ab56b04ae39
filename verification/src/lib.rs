//! AT-command encoding and response-line parsing for SIMCom SIM7000 modems.
pub mod text;
pub mod numeral;
pub mod out;
pub mod time;
pub mod at_command;
