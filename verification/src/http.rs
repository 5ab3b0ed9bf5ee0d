//! HTTP requests as plain values.
use vstd::prelude::*;

verus! {

#[derive(Clone, Copy, Debug, PartialEq, Eq, Structural)]
pub enum Method {
    Get,
    Post,
    Put,
}

/// A request to another service: where it goes, and what it carries.
#[derive(Debug, PartialEq, Eq)]
pub struct HttpRequest {
    pub method: Method,
    pub url: String,
    pub headers: Vec<(String, String)>,
    /// The fields of a form body, each with its value.
    pub form: Vec<(String, String)>,
}

/// The model of an [`HttpRequest`].
#[verifier::ext_equal]
pub struct HttpRequestView {
    pub method: Method,
    pub url: Seq<char>,
    pub headers: Seq<(Seq<char>, Seq<char>)>,
    pub form: Seq<(Seq<char>, Seq<char>)>,
}

impl View for HttpRequest {
    type V = HttpRequestView;

    open spec fn view(&self) -> HttpRequestView {
        HttpRequestView {
            method: self.method,
            url: self.url@,
            headers: self.headers.deep_view(),
            form: self.form.deep_view(),
        }
    }
}

/// Whether a response with this status code reports success.
pub fn is_success(status: u16) -> (r: bool)
    ensures
        r == (200 <= status < 300),
{
    200 <= status && status < 300
}

/// The model of a request shows its method, its address, each header and each form field
/// as they are.
pub proof fn law_request_view_is_faithful(request: HttpRequest)
    ensures
        request@.method == request.method,
        request@.url == request.url@,
        request@.headers.len() == request.headers@.len(),
        forall|i: int|
            0 <= i < request.headers@.len() ==> #[trigger] request@.headers[i] == (
                request.headers@[i].0@,
                request.headers@[i].1@,
            ),
        request@.form.len() == request.form@.len(),
        forall|i: int|
            0 <= i < request.form@.len() ==> #[trigger] request@.form[i] == (
                request.form@[i].0@,
                request.form@[i].1@,
            ),
{
}

} // verus!
