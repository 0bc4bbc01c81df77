use vstd::prelude::*;
use vstd::string::*;

verus! {

/// The body of a request for the first chunk of page `id`, its blocks
/// anchored at the page itself.
pub open spec fn page_chunk_body_text(id: Seq<char>) -> Seq<char> {
    "{\"pageId\":\""@ + id + "\",\"limit\":100000,\"cursor\":{\"stack\":[[{\"table\":\"block\",\"id\":\""@ + id
        + "\",\"index\":0}]]},\"chunkNumber\":0,\"verticalColumns\":false}"@
}

pub fn page_chunk_body(id: &str) -> (r: String)
    ensures
        r@ == page_chunk_body_text(id@),
{
    let mut body = String::from_str("{\"pageId\":\"");
    body.append(id);
    body.append("\",\"limit\":100000,\"cursor\":{\"stack\":[[{\"table\":\"block\",\"id\":\"");
    body.append(id);
    body.append("\",\"index\":0}]]},\"chunkNumber\":0,\"verticalColumns\":false}");
    body
}

} // verus!
