//! Client library for a GitHub App: signed application assertions, cached
//! installation access tokens, and the requests made with them.

pub mod account;
pub mod application;
pub mod clock;
pub mod credential;
pub mod error;
pub mod installation_token;
pub mod json_web_token;
pub mod pull_request;
pub mod request;
pub mod text;

pub use account::{Account, Team};
pub use application::App;
pub use credential::{Credential, Deadline};
pub use error::GithubError;
pub use installation_token::{InstallationToken, TokenCache, TokenStep};
pub use json_web_token::JsonWebToken;
pub use pull_request::{PullRequestState, State, Status};
