//! Vane: the engine-independent core of an HTTP client facade.
//!
//! The crate turns a client configuration and a request record into the
//! exact instructions an HTTP engine has to carry out, and turns what the
//! engine hands back into a plain response record or a classified error.
//! Nothing here performs I/O.

pub mod body;
pub mod client;
pub mod error;
pub mod headers;
pub mod method;
pub mod model;
pub mod response;
pub mod string_map;
pub mod target;
pub mod text;

pub use crate::body::{parse_json_response, response_body_utf8, validate_json_body};
pub use crate::client::{ClientOptions, Dispatched, PreparedRequest, RedirectPolicy, VaneClient};
pub use crate::error::{ErrorKind, TransportFailure, VaneError};
pub use crate::model::{create_default_config, VaneClientConfig, VaneRequest, VaneResponse};
pub use crate::response::{RawBody, RawResponse};
pub use crate::string_map::StringMap;
