//! Response headers of the feed server, and the `If-Modified-Since` date of
//! a request.
use vstd::prelude::*;
use crate::datetime::{parsed_nanos, rfc2822_instant, DateTime};

verus! {

/// Headers by lower-case name and value, in order.
#[derive(Debug)]
pub struct Headers(pub Vec<(String, String)>);

/// The texts of headers.
pub open spec fn headers_view(h: Headers) -> Seq<(Seq<char>, Seq<char>)> {
    h.0@.map_values(|p: (String, String)| (p.0@, p.1@))
}

/// The name of the content type header.
pub const CONTENT_TYPE: &'static str = "content-type";
/// The name of the if-modified-since header.
pub const IF_MODIFIED_SINCE: &'static str = "if-modified-since";

/// A header value an HTTP library reads as text: visible ASCII and tabs.
pub open spec fn visible_ascii(v: Seq<char>) -> bool {
    forall|i: int| 0 <= i < v.len() ==> (v[i] == '\t' || (' ' <= #[trigger] v[i] && v[i] <= '~'))
}

/// The value of the first header with this name, if any.
pub open spec fn header_value(h: Seq<(Seq<char>, Seq<char>)>, name: Seq<char>) -> Option<Seq<char>>
    decreases h.len(),
{
    if h.len() == 0 {
        None
    } else if h[0].0 == name {
        Some(h[0].1)
    } else {
        header_value(h.drop_first(), name)
    }
}

/// The headers of the server's responses.
pub trait HeaderMapExt: Sized {
    /// HTML.
    fn html_headers() -> Self;
    /// Atom.
    fn atom_headers() -> Self;
    /// TOML.
    fn toml_headers() -> Self;
    /// CSS.
    fn css_headers() -> Self;
    /// Plain text.
    fn plaintext_headers() -> Self;
    /// Icons.
    fn favicon_headers() -> Self;
    /// The date of the `If-Modified-Since` header, if present and readable.
    fn if_modified_since(&self) -> Option<DateTime>;
}

fn content_type(value: &str) -> (res: Headers)
    ensures
        headers_view(res) == seq![(CONTENT_TYPE@, value@)],
{
    let mut v: Vec<(String, String)> = Vec::new();
    v.push((crate::text::owned(CONTENT_TYPE), crate::text::owned(value)));
    let h = Headers(v);
    assert(headers_view(h) =~= seq![(CONTENT_TYPE@, value@)]);
    h
}

fn is_visible_ascii(v: &str) -> (res: bool)
    ensures
        res == visible_ascii(v@),
{
    let cs = crate::text::chars_of(v);
    let mut i: usize = 0;
    while i < cs.len()
        invariant
            i <= cs.len(),
            cs@ == v@,
            forall|k: int| 0 <= k < i ==> (cs@[k] == '\t' || (' ' <= #[trigger] cs@[k] && cs@[k] <= '~')),
        decreases cs.len() - i,
    {
        let c = cs[i];
        if !(c == '\t' || (' ' <= c && c <= '~')) {
            return false;
        }
        i += 1;
    }
    true
}

impl HeaderMapExt for Headers {
    fn html_headers() -> (res: Headers)
        ensures
            headers_view(res) == seq![(CONTENT_TYPE@, "text/html; charset=utf-8"@)],
    {
        content_type("text/html; charset=utf-8")
    }

    fn atom_headers() -> (res: Headers)
        ensures
            headers_view(res) == seq![(CONTENT_TYPE@, "application/atom+xml"@)],
    {
        content_type("application/atom+xml")
    }

    fn toml_headers() -> (res: Headers)
        ensures
            headers_view(res) == seq![(CONTENT_TYPE@, "application/toml"@)],
    {
        content_type("application/toml")
    }

    fn css_headers() -> (res: Headers)
        ensures
            headers_view(res) == seq![(CONTENT_TYPE@, "text/css"@)],
    {
        content_type("text/css")
    }

    fn plaintext_headers() -> (res: Headers)
        ensures
            headers_view(res) == seq![(CONTENT_TYPE@, "text/plain"@)],
    {
        content_type("text/plain")
    }

    fn favicon_headers() -> (res: Headers)
        ensures
            headers_view(res) == seq![(CONTENT_TYPE@, "image/x-icon"@)],
    {
        content_type("image/x-icon")
    }

    fn if_modified_since(&self) -> (res: Option<DateTime>)
        ensures
            match header_value(headers_view(*self), IF_MODIFIED_SINCE@) {
                Some(v) => if visible_ascii(v) && rfc2822_instant(v) is Some {
                    res matches Some(d) && d@ == parsed_nanos(rfc2822_instant(v)->0)
                } else {
                    res is None
                },
                None => res is None,
            },
    {
        let ghost h = headers_view(*self);
        let key = crate::text::owned(IF_MODIFIED_SINCE);
        let mut i: usize = 0;
        assert(h.skip(0) =~= h);
        while i < self.0.len()
            invariant
                i <= self.0.len(),
                h == headers_view(*self),
                key@ == IF_MODIFIED_SINCE@,
                header_value(h, IF_MODIFIED_SINCE@) == header_value(h.skip(i as int), IF_MODIFIED_SINCE@),
            decreases self.0.len() - i,
        {
            assert(h.skip(i as int).drop_first() =~= h.skip(i + 1));
            assert(h.skip(i as int)[0] == (self.0@[i as int].0@, self.0@[i as int].1@));
            if self.0[i].0 == key {
                let v = &self.0[i].1;
                if is_visible_ascii(v.as_str()) {
                    return DateTime::from_if_modified_since(v.as_str());
                }
                return None;
            }
            i += 1;
        }
        assert(h.skip(i as int) =~= Seq::<(Seq<char>, Seq<char>)>::empty());
        None
    }
}

} // verus!
