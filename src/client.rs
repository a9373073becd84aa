//! Errors of client operations.
use vstd::prelude::*;

verus! {

/// Errors that can occur during client operations.
#[derive(Clone, Debug)]
pub enum ClientError {
    /// Connection, TLS or timeout failure of the HTTP layer.
    Http(String),
    /// Malformed JSON where well-formed JSON was required.
    Parse(String),
    /// The vendor answered with an error status; its diagnostic text verbatim.
    ProviderError(String),
    /// The stream was dropped before it ended.
    StreamCancelled,
    /// Caller or programmer error detectable before any network call.
    Config(String),
}

impl ClientError {
    pub open spec fn spec_message(&self) -> Seq<char> {
        match self {
            ClientError::Http(m) => "HTTP error: "@ + m@,
            ClientError::Parse(m) => "JSON parse error: "@ + m@,
            ClientError::ProviderError(m) => "Provider error: "@ + m@,
            ClientError::StreamCancelled => "Stream cancelled"@,
            ClientError::Config(m) => "Configuration error: "@ + m@,
        }
    }

    /// The error's display text.
    pub fn message(&self) -> (r: String)
        ensures
            r@ == self.spec_message(),
    {
        let mut r = String::new();
        match self {
            ClientError::Http(m) => {
                r.append("HTTP error: ");
                r.append(m.as_str());
            },
            ClientError::Parse(m) => {
                r.append("JSON parse error: ");
                r.append(m.as_str());
            },
            ClientError::ProviderError(m) => {
                r.append("Provider error: ");
                r.append(m.as_str());
            },
            ClientError::StreamCancelled => {
                r.append("Stream cancelled");
            },
            ClientError::Config(m) => {
                r.append("Configuration error: ");
                r.append(m.as_str());
            },
        }
        assert(r@ =~= self.spec_message());
        r
    }
}

/// The error for a response with an error status. With the vendor's error
/// envelope (kind or code, and message): `<vendor> error (<kind>): <message>`;
/// without: `HTTP <status>: <body>`.
pub fn provider_error(
    vendor: &str,
    envelope: Option<(String, String)>,
    status: &str,
    body: &str,
) -> (r: ClientError)
    ensures
        r matches ClientError::ProviderError(m) && m@ == match envelope {
            Some((kind, message)) => vendor@ + " error ("@ + kind@ + "): "@ + message@,
            None => "HTTP "@ + status@ + ": "@ + body@,
        },
{
    let mut m = String::new();
    match envelope {
        Some((kind, message)) => {
            m.append(vendor);
            m.append(" error (");
            m.append(kind.as_str());
            m.append("): ");
            m.append(message.as_str());
        },
        None => {
            m.append("HTTP ");
            m.append(status);
            m.append(": ");
            m.append(body);
        },
    }
    ClientError::ProviderError(m)
}

} // verus!
