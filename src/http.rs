//! Choosing the response to a request, for the small file server that feeds
//! the pool with jobs.
use vstd::prelude::*;
use vstd::string::StringExecFns;

verus! {

/// Status line answered to a request for the index page.
pub const STATUS_OK: &'static str = "HTTP/1.1 200 OK\r\n\r\n";

/// Status line answered to any other request.
pub const STATUS_NOT_FOUND: &'static str = "HTTP/1.1 404 NOT FOUND\r\n\r\n";

/// File served for the index page.
pub const INDEX_PAGE: &'static str = "hello.html";

/// File served for any other request.
pub const NOT_FOUND_PAGE: &'static str = "404.html";

/// The request line of a request for the index page, `GET / HTTP/1.1\r\n`, as bytes.
pub open spec fn index_request_line() -> Seq<u8> {
    seq![
        71u8, 69u8, 84u8, 32u8, 47u8, 32u8, 72u8, 84u8, 84u8, 80u8, 47u8, 49u8, 46u8, 49u8,
        13u8, 10u8,
    ]
}

/// Whether `request` starts with the request line for the index page.
pub open spec fn is_index_request_spec(request: Seq<u8>) -> bool {
    request.len() >= index_request_line().len() && request.take(
        index_request_line().len() as int,
    ) == index_request_line()
}

/// Whether the request in `request` asks for the index page.
pub fn is_index_request(request: &[u8]) -> (r: bool)
    ensures
        r == is_index_request_spec(request@),
{
    let line: [u8; 16] = [71, 69, 84, 32, 47, 32, 72, 84, 84, 80, 47, 49, 46, 49, 13, 10];
    assert(line@ =~= index_request_line());
    if request.len() < 16 {
        return false;
    }
    let mut i: usize = 0;
    while i < 16
        invariant
            i <= 16,
            request@.len() >= 16,
            line@ == index_request_line(),
            forall|k: int| 0 <= k < i ==> request@[k] == line@[k],
        decreases 16 - i,
    {
        if request[i] != line[i] {
            assert(request@.take(16)[i as int] != index_request_line()[i as int]);
            return false;
        }
        i += 1;
    }
    assert(request@.take(16) =~= index_request_line());
    true
}

/// The status line and the file to send back for `request`.
pub fn route_request(request: &[u8]) -> (r: (&'static str, &'static str))
    ensures
        is_index_request_spec(request@) ==> r.0@ == STATUS_OK@ && r.1@ == INDEX_PAGE@,
        !is_index_request_spec(request@) ==> r.0@ == STATUS_NOT_FOUND@ && r.1@
            == NOT_FOUND_PAGE@,
{
    if is_index_request(request) {
        (STATUS_OK, INDEX_PAGE)
    } else {
        (STATUS_NOT_FOUND, NOT_FOUND_PAGE)
    }
}

/// The full response: the status line followed by the page's contents.
pub fn build_response(status_line: &str, contents: &str) -> (r: String)
    ensures
        r@ == status_line@ + contents@,
{
    let mut response = String::from_str(status_line);
    response.append(contents);
    response
}

} // verus!
