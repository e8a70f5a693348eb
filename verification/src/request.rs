//! The request that asks for one hash.

use vstd::prelude::*;
use vstd::string::StringExecFns;

verus! {

/// A GET request without a body, with one header.
#[derive(Debug)]
pub struct Request {
    /// Where the request goes.
    pub url: String,
    /// The name of the header that carries the API key.
    pub header_name: String,
    /// The API key.
    pub header_value: String,
}

/// A `Request` with its texts as sequences of characters.
pub struct RequestView {
    pub url: Seq<char>,
    pub header_name: Seq<char>,
    pub header_value: Seq<char>,
}

impl View for Request {
    type V = RequestView;

    open spec fn view(&self) -> RequestView {
        RequestView {
            url: self.url@,
            header_name: self.header_name@,
            header_value: self.header_value@,
        }
    }
}

/// The address under which the files known to VirusTotal are found.
pub open spec fn endpoint() -> Seq<char> {
    "https://www.virustotal.com/api/v3/files/"@
}

/// The name of the header that carries the API key.
pub open spec fn key_header() -> Seq<char> {
    "x-apikey"@
}

/// The request for `token`: the token is put behind the endpoint as it is,
/// with nothing escaped, and the key goes into the key header.
pub open spec fn request_for(api_key: Seq<char>, token: Seq<char>) -> RequestView {
    RequestView { url: endpoint() + token, header_name: key_header(), header_value: api_key }
}

/// Builds the request that asks for `token` with `api_key`.
pub fn lookup_request(api_key: &str, token: &str) -> (request: Request)
    ensures
        request@ == request_for(api_key@, token@),
{
    Request {
        url: String::from_str("https://www.virustotal.com/api/v3/files/").concat(token),
        header_name: String::from_str("x-apikey"),
        header_value: String::from_str(api_key),
    }
}

} // verus!
