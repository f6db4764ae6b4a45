use vstd::prelude::*;

verus! {

/// A header value that the HTTP stack refuses, found before anything is sent.
#[derive(Clone, Debug, PartialEq, Eq)]
pub struct ConfigError {
    /// Name of the header whose value was refused.
    pub header: String,
}

impl View for ConfigError {
    type V = Seq<char>;

    open spec fn view(&self) -> Seq<char> {
        self.header@
    }
}

/// Why an operation produced no response: its request could not be built, or
/// the transport `E` failed below HTTP (connection, TLS, timeout).
#[derive(Clone, Debug, PartialEq, Eq)]
pub enum ClientError<E> {
    Config(ConfigError),
    Transport(E),
}

/// Sorts what the transport returned for a request. Every HTTP response,
/// whatever its status, is a result; only a failure of the transport itself is
/// an error, and it is reported once, as it came.
pub fn complete<R, E>(sent: Result<R, E>) -> (r: Result<R, ClientError<E>>)
    ensures
        match sent {
            Ok(resp) => r == Ok::<R, ClientError<E>>(resp),
            Err(e) => r == Err::<R, ClientError<E>>(ClientError::Transport(e)),
        },
{
    match sent {
        Ok(resp) => Ok(resp),
        Err(e) => Err(ClientError::Transport(e)),
    }
}

} // verus!
