//! The transport collaborator's configuration and the Binance client
//! shell, with the request builders of its user-data-stream
//! lifecycle. The transport itself (signing, TLS, transmission) is an
//! outside collaborator; the library only decides what to send.

use vstd::prelude::*;

verus! {

/// An HTTP method of a prepared request.
#[derive(Clone, Copy, Debug, PartialEq, Eq, Structural)]
pub enum HttpMethod {
    Get,
    Post,
    Put,
    Delete,
}

/// What the transport collaborator needs to sign and send a request.
#[derive(Clone, Debug)]
pub struct Transport {
    pub api_key: Option<String>,
    pub api_secret: Option<String>,
    pub passphrase: Option<String>,
    pub sandbox: bool,
}

impl Transport {
    /// An unauthenticated transport configuration.
    pub fn new() -> (r: Transport)
        ensures
            r.api_key is None,
            r.api_secret is None,
            r.passphrase is None,
            !r.sandbox,
    {
        Transport { api_key: Option::None, api_secret: Option::None, passphrase: Option::None, sandbox: false }
    }

    /// A transport configuration with signing credentials.
    pub fn with_credential(api_key: &str, api_secret: &str) -> (r: Transport)
        ensures
            r.api_key matches Option::Some(k) && k@ == api_key@,
            r.api_secret matches Option::Some(s) && s@ == api_secret@,
            r.passphrase is None,
            !r.sandbox,
    {
        Transport {
            api_key: Option::Some(api_key.to_owned()),
            api_secret: Option::Some(api_secret.to_owned()),
            passphrase: Option::None,
            sandbox: false,
        }
    }
}

/// One prepared request: the method, the path and the query
/// parameters the transport must send.
#[derive(Clone, Debug)]
pub struct PreparedRequest {
    pub method: HttpMethod,
    pub path: String,
    pub params: Vec<(String, String)>,
}

/// The Binance client: a thin shell around the transport
/// configuration.
#[derive(Clone, Debug)]
pub struct Binance {
    pub transport: Transport,
}

impl Binance {
    /// An unauthenticated client.
    pub fn new() -> (r: Binance)
        ensures
            r.transport.api_key is None,
            r.transport.api_secret is None,
    {
        Binance { transport: Transport::new() }
    }

    /// A client with signing credentials.
    pub fn with_credential(api_key: &str, api_secret: &str) -> (r: Binance)
        ensures
            r.transport.api_key matches Option::Some(k) && k@ == api_key@,
            r.transport.api_secret matches Option::Some(s) && s@ == api_secret@,
    {
        Binance { transport: Transport::with_credential(api_key, api_secret) }
    }

    /// Open a user data stream: a `POST` to the stream endpoint with
    /// no parameters.
    pub fn user_stream_start_request(&self) -> (r: PreparedRequest)
        ensures
            r.method == HttpMethod::Post,
            r.path@ == "/api/v1/userDataStream"@,
            r.params@.len() == 0,
    {
        PreparedRequest {
            method: HttpMethod::Post,
            path: "/api/v1/userDataStream".to_owned(),
            params: Vec::new(),
        }
    }

    /// Keep a user data stream alive: a `PUT` with its listen key.
    pub fn user_stream_keep_alive_request(&self, listen_key: &str) -> (r: PreparedRequest)
        ensures
            r.method == HttpMethod::Put,
            r.path@ == "/api/v1/userDataStream"@,
            r.params@.len() == 1,
            r.params@[0].0@ == "listen_key"@,
            r.params@[0].1@ == listen_key@,
    {
        let mut params: Vec<(String, String)> = Vec::new();
        params.push(("listen_key".to_owned(), listen_key.to_owned()));
        PreparedRequest {
            method: HttpMethod::Put,
            path: "/api/v1/userDataStream".to_owned(),
            params,
        }
    }

    /// Close a user data stream: a `DELETE` with its listen key.
    pub fn user_stream_close_request(&self, listen_key: &str) -> (r: PreparedRequest)
        ensures
            r.method == HttpMethod::Delete,
            r.path@ == "/api/v1/userDataStream"@,
            r.params@.len() == 1,
            r.params@[0].0@ == "listen_key"@,
            r.params@[0].1@ == listen_key@,
    {
        let mut params: Vec<(String, String)> = Vec::new();
        params.push(("listen_key".to_owned(), listen_key.to_owned()));
        PreparedRequest {
            method: HttpMethod::Delete,
            path: "/api/v1/userDataStream".to_owned(),
            params,
        }
    }
}

impl Default for Binance {
    /// The same as `Binance::new`.
    fn default() -> (r: Binance)
        ensures
            r.transport.api_key is None,
            r.transport.api_secret is None,
    {
        Binance::new()
    }
}

} // verus!
