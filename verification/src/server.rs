//! Serving-layer support: the list of response headers that the host
//! application stamps onto every response it sends.

use vstd::prelude::*;

verus! {

/// One response header.
#[derive(Clone, Debug)]
pub struct Header {
    pub key: String,
    pub value: String,
}

#[verifier::ext_equal]
pub ghost struct HeaderView {
    pub key: Seq<char>,
    pub value: Seq<char>,
}

impl View for Header {
    type V = HeaderView;

    open spec fn view(&self) -> HeaderView {
        HeaderView { key: self.key@, value: self.value@ }
    }
}

impl DeepView for Header {
    type V = HeaderView;

    open spec fn deep_view(&self) -> HeaderView {
        self@
    }
}

/// The headers applied to every response, kept in insertion order.
#[derive(Debug)]
pub struct Headers {
    headers: Vec<Header>,
}

impl View for Headers {
    type V = Seq<HeaderView>;

    closed spec fn view(&self) -> Seq<HeaderView> {
        self.headers.deep_view()
    }
}

impl Headers {
    /// No headers yet.
    pub fn new() -> (r: Headers)
        ensures
            r@ == Seq::<HeaderView>::empty(),
    {
        let r = Headers { headers: Vec::new() };
        proof {
            assert(r@ =~= Seq::<HeaderView>::empty());
        }
        r
    }

    /// Adds one header at the end.
    pub fn set(self, key: &str, value: &str) -> (r: Headers)
        ensures
            r@ == self@.push(HeaderView { key: key@, value: value@ }),
    {
        let mut headers = self.headers;
        headers.push(Header { key: key.to_owned(), value: value.to_owned() });
        let r = Headers { headers };
        proof {
            assert(r@ =~= self@.push(HeaderView { key: key@, value: value@ }));
        }
        r
    }

    /// The headers, in the order they were set.
    pub fn all(&self) -> (r: &Vec<Header>)
        ensures
            r.deep_view() == self@,
    {
        &self.headers
    }
}

} // verus!
