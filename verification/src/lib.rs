//! A declarative HTTP-client core: operations are described as data — a
//! verb, a path template and role-tagged parameters — and compiled into
//! an immutable table; at call time the dispatcher turns the table and
//! the call's values into a complete request description, ready for a
//! transport to send.

pub mod client;
pub mod error;
pub mod host;
pub mod http;
pub mod params;
pub mod request;
pub mod state;
pub mod text;
pub mod user_client;

pub use client::{Client, ClientBuilder};
pub use error::ClientError;
pub use host::{Host, HostRound};
pub use http::{HttpMethod, RequestBody};
pub use params::{OperationSpec, ParamDecl, ParameterSpec, Role};
pub use request::{ArgsBundle, RequestPlan};
pub use state::State;
pub use user_client::{PutUserArgs, User, UserClient};
