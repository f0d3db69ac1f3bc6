//! The remote side of the pipeline: the request URL for a template and the
//! envelope that the repository-hosting API answers with.
//!
//! The network call itself lives in the binary; this module builds the URL
//! it requests and decodes the envelope it brings back.

use vstd::prelude::*;
use vstd::string::StringExecFns;
use crate::codec::DecodeError;
use crate::codec::decode_contents;
use crate::codec::decoded_payload;
use crate::text::lemma_strip_ws_idempotent;
use crate::text::remove_whitespace;
use crate::text::strip_ws;

verus! {

/// The fixed base URL under which the templates are hosted.
pub open spec fn base_url() -> Seq<char> {
    "https://api.github.com/repos/github/gitignore/contents"@
}

/// The URL a template is fetched from: `<base>/<template>.gitignore`.
pub open spec fn template_url_of(template: Seq<char>) -> Seq<char> {
    base_url() + seq!['/'] + template + ".gitignore"@
}

/// Builds the request URL for a template name, which is used verbatim:
/// no character of it is validated or escaped.
pub fn template_url(template: &String) -> (r: String)
    ensures
        r@ == template_url_of(template@),
{
    let mut url: String = "https://api.github.com/repos/github/gitignore/contents".to_owned();
    url.append("/");
    url.append(template.as_str());
    url.append(".gitignore");
    proof {
        reveal_strlit("/");
        assert(("/")@ =~= seq!['/']);
    }
    url
}

/// The flat record the remote API answers with. Every field is required;
/// only `content` feeds the rest of the pipeline, the others are kept for
/// fidelity to the API's shape.
pub struct ResponseEnvelope {
    pub name: String,
    pub path: String,
    pub sha: String,
    pub size: usize,
    pub url: String,
    pub html_url: String,
    pub git_url: String,
    pub download_url: String,
    pub content: String,
    pub encoding: String,
}

/// The text to write to `.gitignore`: the envelope's `content` payload,
/// whitespace-stripped, base64-decoded and read as UTF-8.
pub fn gitignore_text(envelope: &ResponseEnvelope) -> (r: Result<String, DecodeError>)
    ensures
        r is Ok <==> decoded_payload(envelope.content@) is Some,
        r matches Ok(text) ==> text@ == decoded_payload(envelope.content@).unwrap(),
{
    let stripped = remove_whitespace(&envelope.content);
    proof {
        lemma_strip_ws_idempotent(envelope.content@);
        assert(strip_ws(stripped@) == strip_ws(envelope.content@));
    }
    decode_contents(&stripped)
}

} // verus!
