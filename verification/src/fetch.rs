//! Judging what came back from the one GET of the release asset.

use vstd::prelude::*;

verus! {

/// What the host read from the network: the status code, the length the
/// server announced for the body, if it announced one, and the body as far
/// as it arrived.
#[derive(Debug)]
pub struct HttpReply {
    pub status: u16,
    pub declared_length: Option<u64>,
    pub body: Vec<u8>,
}

pub struct HttpReplyView {
    pub status: u16,
    pub declared_length: Option<u64>,
    pub body: Seq<u8>,
}

impl View for HttpReply {
    type V = HttpReplyView;

    open spec fn view(&self) -> HttpReplyView {
        HttpReplyView {
            status: self.status,
            declared_length: self.declared_length,
            body: self.body@,
        }
    }
}

/// The view of a reply that may be missing.
pub open spec fn view_reply(reply: Option<HttpReply>) -> Option<HttpReplyView> {
    match reply {
        Some(r) => Some(r@),
        None => None,
    }
}

/// Why a download does not count as retrieved.
#[derive(Clone, Copy, Debug, PartialEq, Eq, Structural)]
pub enum FetchError {
    /// No reply could be read at all.
    Transport,
    /// The server answered with a status outside 200..=299.
    Status(u16),
    /// Fewer or more bytes arrived than the server announced.
    Truncated,
}

/// The verdict on a reply, or on the lack of one. Only a success status with
/// a body of the announced length is a retrieval; the status is judged first.
pub open spec fn spec_accept_reply(reply: Option<HttpReplyView>) -> Result<Seq<u8>, FetchError> {
    match reply {
        None => Err(FetchError::Transport),
        Some(r) => {
            if !(200 <= r.status <= 299) {
                Err(FetchError::Status(r.status))
            } else if r.declared_length is Some && r.declared_length->0 != r.body.len() {
                Err(FetchError::Truncated)
            } else {
                Ok(r.body)
            }
        },
    }
}

/// Hands out the compressed bytes of a reply that counts as a retrieval, and
/// says why any other does not. Nothing is retried.
pub fn accept_reply(reply: Option<HttpReply>) -> (r: Result<Vec<u8>, FetchError>)
    ensures
        r is Ok <==> spec_accept_reply(view_reply(reply)) is Ok,
        r matches Ok(body) ==> spec_accept_reply(view_reply(reply)) == Ok::<
            Seq<u8>,
            FetchError,
        >(body@),
        r matches Err(e) ==> spec_accept_reply(view_reply(reply)) == Err::<
            Seq<u8>,
            FetchError,
        >(e),
{
    match reply {
        None => Err(FetchError::Transport),
        Some(r) => {
            if r.status < 200 || r.status > 299 {
                return Err(FetchError::Status(r.status));
            }
            match r.declared_length {
                Some(n) => {
                    if n != r.body.len() as u64 {
                        return Err(FetchError::Truncated);
                    }
                },
                None => {},
            }
            Ok(r.body)
        },
    }
}

} // verus!
