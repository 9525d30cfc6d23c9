//! The server connection parameters. They ship base64-encoded; decoding them
//! is the one place the engine leans on the `base64` crate, and turning the
//! decoded bytes back into text is the one place it leans on
//! `String::from_utf8`.

use vstd::prelude::*;
use vstd::utf8::encode_utf8;
use vstd::utf8::valid_utf8;
use base64::Engine;

verus! {

/// The mathematical value of the connection parameters.
#[verifier::ext_equal]
pub struct ServerView {
    pub key: Seq<char>,
    pub root_url: Seq<char>,
    pub port: Seq<char>,
    pub name: Seq<char>,
}

impl ServerView {
    /// All four parameters blank.
    pub open spec fn empty() -> ServerView {
        ServerView {
            key: Seq::empty(),
            root_url: Seq::empty(),
            port: Seq::empty(),
            name: Seq::empty(),
        }
    }
}

/// The server connection parameters: the shared secret, the host (without a
/// scheme), the socket port and the display name shown on the auth screen.
pub struct Server {
    pub key: String,
    pub root_url: String,
    pub port: String,
    pub name: String,
}

impl View for Server {
    type V = ServerView;

    open spec fn view(&self) -> ServerView {
        ServerView {
            key: self.key@,
            root_url: self.root_url@,
            port: self.port@,
            name: self.name@,
        }
    }
}

impl Default for Server {
    /// Blank parameters; the configuration source fills them in.
    fn default() -> (s: Server)
        ensures
            s@ == ServerView::empty(),
    {
        let s = Server {
            key: String::new(),
            root_url: String::new(),
            port: String::new(),
            name: String::new(),
        };
        proof {
            assert(s@ =~~= ServerView::empty());
        }
        s
    }
}

#[verifier::external_type_specification]
#[verifier::external_body]
pub struct ExDecodeError(base64::DecodeError);

#[verifier::external_type_specification]
#[verifier::external_body]
pub struct ExFromUtf8Error(std::string::FromUtf8Error);

/// What base64's standard-alphabet decode yields on a given text: `None`
/// where the text is rejected. The result is a function of the text alone.
pub uninterp spec fn b64_decoded(s: Seq<char>) -> Option<Seq<u8>>;

/// Relies on base64's `Engine::decode` with the `STANDARD` engine: decoding
/// depends on the input text alone.
#[verifier::external_body]
fn base64_decode(s: &str) -> (r: Result<Vec<u8>, base64::DecodeError>)
    ensures
        r matches Ok(v) ==> b64_decoded(s@) == Some(v@),
        r is Err ==> b64_decoded(s@) is None,
{
    base64::engine::general_purpose::STANDARD.decode(s)
}

/// Relies on `String::from_utf8`: it succeeds exactly on valid UTF-8, and
/// returns the text those bytes encode (both in terms of vstd's UTF-8 model).
#[verifier::external_body]
fn string_from_utf8(v: Vec<u8>) -> (r: Result<String, std::string::FromUtf8Error>)
    ensures
        r matches Ok(s) ==> valid_utf8(v@) && encode_utf8(s@) == v@,
        r is Err ==> !valid_utf8(v@),
{
    String::from_utf8(v)
}

/// The encoded text carries exactly the characters `out`: base64 accepts it
/// and the decoded bytes are valid UTF-8 for `out`.
pub open spec fn decodes_to(s: Seq<char>, out: Seq<char>) -> bool {
    b64_decoded(s) matches Some(bytes) && valid_utf8(bytes) && encode_utf8(out) == bytes
}

/// The encoded text carries no characters: one of the two layers rejects it.
pub open spec fn undecodable(s: Seq<char>) -> bool {
    ||| b64_decoded(s) is None
    ||| (b64_decoded(s) matches Some(bytes) && !valid_utf8(bytes))
}

/// Decodes one base64-encoded UTF-8 configuration value.
pub fn decode_config_value(s: &str) -> (r: Option<String>)
    ensures
        r matches Some(out) ==> decodes_to(s@, out@),
        r is None ==> undecodable(s@),
{
    match base64_decode(s) {
        Ok(bytes) => match string_from_utf8(bytes) {
            Ok(out) => Some(out),
            Err(_) => None,
        },
        Err(_) => None,
    }
}

impl Server {
    /// Builds the connection parameters from their base64-encoded form; fails
    /// exactly when one of the four values does not decode.
    pub fn from_encoded(key: &str, root_url: &str, port: &str, name: &str) -> (r: Option<Server>)
        ensures
            r matches Some(srv) ==> decodes_to(key@, srv@.key) && decodes_to(root_url@, srv@.root_url)
                && decodes_to(port@, srv@.port) && decodes_to(name@, srv@.name),
            r is None ==> (undecodable(key@) || undecodable(root_url@) || undecodable(port@)
                || undecodable(name@)),
    {
        let k = match decode_config_value(key) {
            Some(v) => v,
            None => {
                return None;
            },
        };
        let u = match decode_config_value(root_url) {
            Some(v) => v,
            None => {
                return None;
            },
        };
        let p = match decode_config_value(port) {
            Some(v) => v,
            None => {
                return None;
            },
        };
        let n = match decode_config_value(name) {
            Some(v) => v,
            None => {
                return None;
            },
        };
        Some(Server { key: k, root_url: u, port: p, name: n })
    }
}

} // verus!
