//! The error taxonomy and the serialization of results onto the wire.
//!
//! A request produces a [`Response`]: either a success carrying an optional
//! payload, or a [`KvError`]. The serializer is a deterministic, stateless
//! mapping from a response to the wire string `OK`, `OK<SEP><value>` or
//! `ERR<SEP><message>`; only the human-readable message of an error is
//! transmitted, never its kind.

use vstd::prelude::*;

verus! {

/// The closed set of failures a request can produce.
#[derive(Debug)]
pub enum KvError {
    /// The request line was malformed or its keyword unrecognized.
    Parse,
    /// A `GET` or `REMOVE` named a key that is not in the store.
    NotFound { key: String },
    /// A socket read or write failed, or the request was not valid text;
    /// raised only by the surrounding process, never by the core.
    Io { detail: String },
}

/// The mathematical counterpart of [`KvError`], over sequences of characters.
pub enum KvErrorView {
    Parse,
    NotFound { key: Seq<char> },
    Io { detail: Seq<char> },
}

impl View for KvError {
    type V = KvErrorView;

    open spec fn view(&self) -> KvErrorView {
        match self {
            KvError::Parse => KvErrorView::Parse,
            KvError::NotFound { key } => KvErrorView::NotFound { key: key@ },
            KvError::Io { detail } => KvErrorView::Io { detail: detail@ },
        }
    }
}

impl KvErrorView {
    /// The message that the serializer puts after `ERR`.
    pub open spec fn message(self) -> Seq<char> {
        match self {
            KvErrorView::Parse => "Unable to parse command"@,
            KvErrorView::NotFound { key } => "Key not found: "@ + key,
            KvErrorView::Io { detail } => detail,
        }
    }
}

impl KvError {
    /// The human-readable message of this error.
    pub fn message(&self) -> (r: String)
        ensures
            r@ == self@.message(),
    {
        match self {
            KvError::Parse => String::from_str("Unable to parse command"),
            KvError::NotFound { key } => {
                let mut s = String::from_str("Key not found: ");
                s.append(key.as_str());
                s
            },
            KvError::Io { detail } => detail.clone(),
        }
    }
}

/// What the executor hands back for one request: a payload on success
/// (`None` when the command has nothing to report), or an error.
pub type Response = Result<Option<String>, KvError>;

/// The view of a [`Response`], over sequences of characters.
pub open spec fn response_view(r: Response) -> Result<Option<Seq<char>>, KvErrorView> {
    match r {
        Ok(None) => Ok(None),
        Ok(Some(v)) => Ok(Some(v@)),
        Err(e) => Err(e@),
    }
}

/// The wire string of a response: `OK`, `OK<sep><value>` or `ERR<sep><message>`.
pub open spec fn wire_of(r: Result<Option<Seq<char>>, KvErrorView>, sep: char) -> Seq<char> {
    match r {
        Ok(None) => "OK"@,
        Ok(Some(v)) => "OK"@ + seq![sep] + v,
        Err(e) => "ERR"@ + seq![sep] + e.message(),
    }
}

/// Relies on char::to_string: the resulting string holds exactly the one
/// character.
#[verifier::external_body]
fn char_to_string(c: char) -> (r: String)
    ensures
        r@ == seq![c],
{
    c.to_string()
}

/// Turn a response into its wire string, with `sep` between the status
/// code and the payload or message.
pub fn serialize(response: Response, sep: char) -> (r: String)
    ensures
        r@ == wire_of(response_view(response), sep),
{
    match response {
        Ok(None) => String::from_str("OK"),
        Ok(Some(v)) => {
            let mut s = String::from_str("OK");
            let sep_s = char_to_string(sep);
            s.append(sep_s.as_str());
            s.append(v.as_str());
            s
        },
        Err(e) => {
            let mut s = String::from_str("ERR");
            let sep_s = char_to_string(sep);
            s.append(sep_s.as_str());
            let msg = e.message();
            s.append(msg.as_str());
            s
        },
    }
}

} // verus!
