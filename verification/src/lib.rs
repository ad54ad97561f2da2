//! A minimal client for the repository-creation endpoint of a hosted
//! source-control platform.
//!
//! The verified core builds the outgoing request (URL, headers, JSON body)
//! and interprets the response (status validation and `html_url` extraction).
//! Sending the request over the network is left to the surrounding program.

pub mod client;
pub mod json;

pub use client::GithubAPIClient;
pub use client::GithubError;
pub use client::RepoRequest;
pub use client::interpret_response;
pub use client::request_body;
