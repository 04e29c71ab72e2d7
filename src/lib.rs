//! Decision logic for an automated AWS SSO device-code login: profile
//! discovery from the AWS configuration, extraction of the verification URL
//! from the login command's output, and the state machine that walks the
//! identity provider's sign-in pages.

pub mod text;
pub mod error;
pub mod profiles;
pub mod device;
pub mod router;
pub mod cli;
pub mod session;
