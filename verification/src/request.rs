//! The request for one page: its address and the headers it is sent with.

use vstd::prelude::*;
use vstd::string::*;
use crate::platform::Platform;

verus! {

/// One header of a request.
#[derive(Clone, Debug, PartialEq, Eq)]
pub struct Header {
    pub name: String,
    pub value: String,
}

/// A GET request, ready to be sent.
#[derive(Clone, Debug, PartialEq, Eq)]
pub struct Request {
    /// The address of the page.
    pub url: String,
    /// The headers to send, in order.
    pub headers: Vec<Header>,
}

/// A [`Header`] as a mathematical value.
pub struct HeaderView {
    pub name: Seq<char>,
    pub value: Seq<char>,
}

/// A [`Request`] as a mathematical value.
pub struct RequestView {
    pub url: Seq<char>,
    pub headers: Seq<HeaderView>,
}

impl View for Header {
    type V = HeaderView;

    open spec fn view(&self) -> HeaderView {
        HeaderView { name: self.name@, value: self.value@ }
    }
}

impl View for Request {
    type V = RequestView;

    open spec fn view(&self) -> RequestView {
        RequestView { url: self.url@, headers: self.headers@.map_values(|h: Header| h@) }
    }
}

/// The directory on the page host under which every platform has its own
/// directory of pages.
pub open spec fn pages_root() -> Seq<char> {
    "http://raw.github.com/rprieto/tldr/master/pages/"@
}

/// The address of the page of `command` for `platform`.
pub open spec fn page_url(command: Seq<char>, platform: Platform) -> Seq<char> {
    pages_root() + platform.tag_spec() + "/"@ + command + ".md"@
}

/// The headers that every page request carries: the connection is closed
/// after the answer, and plain text is asked for.
pub open spec fn page_headers() -> Seq<HeaderView> {
    seq![
        HeaderView { name: "Connection"@, value: "close"@ },
        HeaderView { name: "Accept"@, value: "text/plain"@ },
    ]
}

/// The request for the page of `command` for `platform`.
pub open spec fn page_request(command: Seq<char>, platform: Platform) -> RequestView {
    RequestView { url: page_url(command, platform), headers: page_headers() }
}

/// Builds the address of the page of `command` for `platform`.
///
/// The command is put into the address as it is.
pub fn page_address(command: &str, platform: Platform) -> (url: String)
    ensures
        url@ == page_url(command@, platform),
{
    let mut url = String::from_str("http://raw.github.com/rprieto/tldr/master/pages/");
    url.append(platform.tag());
    url.append("/");
    url.append(command);
    url.append(".md");
    url
}

impl Request {
    /// Builds the request for the page of `command` for `platform`.
    pub fn for_page(command: &str, platform: Platform) -> (request: Request)
        ensures
            request@ == page_request(command@, platform),
    {
        let mut headers: Vec<Header> = Vec::new();
        headers.push(
            Header { name: String::from_str("Connection"), value: String::from_str("close") },
        );
        headers.push(
            Header { name: String::from_str("Accept"), value: String::from_str("text/plain") },
        );
        let request = Request { url: page_address(command, platform), headers };
        assert(request@.headers =~= page_headers());
        request
    }
}

} // verus!
