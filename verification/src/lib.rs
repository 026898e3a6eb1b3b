//! Protocol layer for a family of label printers that speak a raster
//! command language over a bulk byte-stream transport.
//!
//! The modules here cover the pure protocol work: the label catalog,
//! the status-frame decoder, the command and setting encoders, the
//! raster-line transform, and the print orchestrator (a state machine
//! whose transport actions are carried out by the caller).

pub mod command;
pub mod constants;
pub mod job;
pub mod media_type;
pub mod model;
pub mod protocol;
pub mod setting;
pub mod status;
pub mod status_type;

pub use command::Command;
pub use constants::{Label, WidthLength, label_data, printer_name_from_id};
pub use job::{PrintJob, chunk_raster_bytes};
pub use media_type::MediaType;
pub use model::PrinterModel;
pub use protocol::{PrintAction, PrintEvent, PrintState, advance, completion_poll_step, start_print};
pub use setting::{PrinterSetting, Resolution, SleepTimerValue};
pub use status::{Media, ProtocolError, Response, decode};
pub use status_type::StatusType;
