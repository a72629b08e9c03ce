//! Serving the consumer UI's files: which file a request names, and what is
//! answered once it was looked up.

use vstd::prelude::*;

verus! {

/// How many slashes `path` begins with.
pub open spec fn leading_slashes(path: Seq<char>) -> nat
    decreases path.len(),
{
    if path.len() > 0 && path[0] == '/' {
        1 + leading_slashes(path.drop_first())
    } else {
        0
    }
}

/// The file that a request for `path` names: the path without its leading
/// slashes, or `index.html` where nothing is left.
pub open spec fn asset_name(path: Seq<char>) -> Seq<char> {
    let name = path.skip(leading_slashes(path) as int);
    if name.len() == 0 {
        "index.html"@
    } else {
        name
    }
}

/// A path that begins with `count` slashes, and no more, has that many
/// leading slashes.
proof fn lemma_leading_slashes(path: Seq<char>, count: int)
    requires
        0 <= count <= path.len(),
        forall|j: int| 0 <= j < count ==> path[j] == '/',
        count < path.len() ==> path[count] != '/',
    ensures
        leading_slashes(path) == count,
    decreases count,
{
    if count > 0 {
        lemma_leading_slashes(path.drop_first(), count - 1);
    }
}

/// The file that a request for `request_path` names.
pub fn asset_path(request_path: &str) -> (name: String)
    ensures
        name@ == asset_name(request_path@),
{
    let len = request_path.unicode_len();
    let mut count: usize = 0;
    while count < len && request_path.get_char(count) == '/'
        invariant
            count <= len,
            len == request_path@.len(),
            forall|j: int| 0 <= j < count ==> request_path@[j] == '/',
        decreases len - count,
    {
        count = count + 1;
    }
    proof {
        lemma_leading_slashes(request_path@, count as int);
    }
    if count == len {
        "index.html".to_owned()
    } else {
        let name = request_path.substring_char(count, len);
        assert(name@ =~= request_path@.skip(count as int));
        name.to_owned()
    }
}

/// What a request is answered with.
#[derive(Debug)]
pub struct AssetResponse {
    pub status: u16,
    pub content_type: Option<String>,
    pub body: Vec<u8>,
}

/// `mime_guess::from_path` followed by `MimeGuess::first_or_octet_stream`,
/// as text: the media type that mime_guess's table gives for the extension of
/// `path`, or `application/octet-stream` where it has none. The table is
/// mime_guess's own; nothing is claimed of the value.
#[verifier::external_body]
fn guess_content_type(path: &str) -> String {
    mime_guess::from_path(path).first_or_octet_stream().as_ref().to_owned()
}

/// The answer to a request for a file that was found.
pub fn asset_response(path: &str, content: Vec<u8>) -> (response: AssetResponse)
    ensures
        response.status == 200,
        response.content_type is Some,
        response.body == content,
{
    AssetResponse { status: 200, content_type: Some(guess_content_type(path)), body: content }
}

/// The answer to a request for a file that was not found: the index page, so
/// that the UI can route the path itself, or a 404 where there is no index
/// page.
pub fn fallback_response(index: Option<Vec<u8>>) -> (response: AssetResponse)
    ensures
        match index {
            Some(content) => {
                &&& response.status == 200
                &&& response.content_type matches Some(kind) && kind@ == "text/html"@
                &&& response.body == content
            },
            None => {
                &&& response.status == 404
                &&& response.content_type is None
                &&& response.body@ == "Not Found"@.map_values(|c: char| c as u8)
            },
        },
{
    match index {
        Some(content) => AssetResponse {
            status: 200,
            content_type: Some("text/html".to_owned()),
            body: content,
        },
        None => {
            proof {
                reveal_strlit("Not Found");
            }
            let body: Vec<u8> = vec![78u8, 111u8, 116u8, 32u8, 70u8, 111u8, 117u8, 110u8, 100u8];
            assert(body@ =~= "Not Found"@.map_values(|c: char| c as u8));
            AssetResponse { status: 404, content_type: None, body }
        },
    }
}

} // verus!
