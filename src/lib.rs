//! A logging relay: each request names a registered client and a message, and
//! the message is appended as one line to that client's log file.
//!
//! The library holds the decisions of the request path: the client registry,
//! how a client's log path is derived, and how each outcome maps to a
//! response. Reading the configuration and writing to disk are left to the
//! caller, which carries out the steps that the library asks for.

mod config;
mod handler;
mod laws;
mod path;
mod service;

pub use config::{ClientConfig, ClientEntryView, Config, ConfigView};
pub use handler::{
    begin, body_of, fault_of, finish, line_of, loaded, plan, response_after, status_of,
    AppendError, ConfigError, FaultKind, LogRequest, Response, Step, StepView,
};
pub use laws::{
    failed_append_is_server_fault, file_text, files_after, registered_client_is_logged,
    repeated_request_appends_twice, unknown_client_is_refused, unreadable_config_is_server_fault,
};
pub use path::{joined_path, log_path_of, resolve, ClientNotFound, CLIENTS_DIR};
pub use service::{rocket, ConfigPolicy, Service, CONFIG_FILE, MOUNT_POINT};
