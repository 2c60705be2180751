//! Verified core of a command-line client that logs in to a web portal
//! through a form carrying a hidden execution token, then issues one
//! authenticated search query.
//!
//! The library holds everything that computes or decides: argument
//! validation, extraction of the hidden token from the login page,
//! parsing of the credentials file into the ordered form-field list,
//! percent-encoding of the form body and of the search query, and the
//! session state machine that judges each HTTP response. The thin
//! binary around it only moves bytes over the network and hands the
//! results here.

pub mod config;
pub mod credentials;
pub mod encoding;
pub mod errors;
pub mod session;
pub mod strutil;
pub mod token;

pub use config::parse_config;
pub use credentials::build_login_fields;
pub use credentials::parse_credential_fields;
pub use encoding::build_search_url;
pub use encoding::encode_component;
pub use encoding::encode_form;
pub use errors::ParseError;
pub use errors::RequestError;
pub use session::login_page_response;
pub use session::login_url;
pub use session::Session;
pub use session::SessionState;
pub use token::extract_execution_token;
