//! The URL template builder: the four canonical JMAP endpoint URLs, derived
//! from the service's bind address. The `{...}` placeholders are literal
//! tokens the client substitutes per RFC 8620; they are preserved verbatim,
//! never percent-encoded. The address is not validated: configuration is
//! trusted, and a malformed address yields a malformed URL, not an error.

use vstd::prelude::*;
use vstd::string::StringExecFns;

verus! {

pub struct URLs {
    pub api: String,
    pub download: String,
    pub upload: String,
    pub event_source: String,
}

pub open spec fn spec_api_url(addr: Seq<char>) -> Seq<char> {
    "https://"@ + addr + "/api"@
}

pub open spec fn spec_download_url(addr: Seq<char>) -> Seq<char> {
    "https://"@ + addr + "/download/{accountId}/{blobId}/{name}?accept={type}"@
}

pub open spec fn spec_upload_url(addr: Seq<char>) -> Seq<char> {
    "https://"@ + addr + "/upload/{accountId}/"@
}

pub open spec fn spec_event_source_url(addr: Seq<char>) -> Seq<char> {
    "https://"@ + addr + "/eventsource?types={types}&closeafter={closeafter}&ping={ping}"@
}

impl URLs {
    /// Substitutes the bind address into the four fixed endpoint templates.
    pub fn from_address(addr: &str) -> (r: Self)
        ensures
            r.api@ == spec_api_url(addr@),
            r.download@ == spec_download_url(addr@),
            r.upload@ == spec_upload_url(addr@),
            r.event_source@ == spec_event_source_url(addr@),
    {
        URLs {
            api: String::from_str("https://").concat(addr).concat("/api"),
            download: String::from_str("https://").concat(addr).concat(
                "/download/{accountId}/{blobId}/{name}?accept={type}",
            ),
            upload: String::from_str("https://").concat(addr).concat("/upload/{accountId}/"),
            event_source: String::from_str("https://").concat(addr).concat(
                "/eventsource?types={types}&closeafter={closeafter}&ping={ping}",
            ),
        }
    }
}

} // verus!
