//! Sizes, URLs, HTTP methods and network addresses as plain values.
use vstd::prelude::*;

verus! {

/// `url::ParseError`: why a text is no URL.
#[verifier::external_type_specification]
#[verifier::external_body]
pub struct ExUrlError(url::ParseError);

/// `axum::http::method::InvalidMethod`: that a text is no method.
#[verifier::external_type_specification]
#[verifier::external_body]
pub struct ExMethodError(axum::http::method::InvalidMethod);

/// A number of bytes.
#[derive(Debug, Clone, Copy, PartialEq, Eq, PartialOrd, Ord, Hash)]
pub struct ByteSize(pub u64);

/// An absolute URL in its normal form.
#[derive(Debug, PartialEq, Eq, PartialOrd, Ord, Hash)]
pub struct Url {
    pub text: String,
}

/// An HTTP method.
#[derive(Debug, PartialEq, Eq, PartialOrd, Ord, Hash)]
pub struct Method {
    pub name: String,
}

/// An IP address.
#[derive(Debug, Clone, Copy, PartialEq, Eq, PartialOrd, Ord, Hash)]
pub enum IpAddr {
    V4([u8; 4]),
    V6([u16; 8]),
}

/// An IP address and a port.
#[derive(Debug, Clone, Copy, PartialEq, Eq, PartialOrd, Ord, Hash)]
pub enum SocketAddr {
    V4 { octets: [u8; 4], port: u16 },
    V6 { segments: [u16; 8], port: u16, flowinfo: u32, scope_id: u32 },
}

/// What `bytesize::ByteSize` makes of a text: a number of bytes.
pub uninterp spec fn parsed_byte_size(text: Seq<char>) -> Option<u64>;

/// What `url::Url::parse` makes of a text: the URL in its normal form.
pub uninterp spec fn parsed_url(text: Seq<char>) -> Option<Seq<char>>;

impl View for Url {
    type V = Seq<char>;

    open spec fn view(&self) -> Seq<char> {
        self.text@
    }
}

impl DeepView for Url {
    type V = Seq<char>;

    open spec fn deep_view(&self) -> Seq<char> {
        self.text@
    }
}

impl Clone for Url {
    fn clone(&self) -> (copy: Url)
        ensures
            copy@ == self@,
    {
        Url { text: self.text.clone() }
    }
}

impl View for Method {
    type V = Seq<char>;

    open spec fn view(&self) -> Seq<char> {
        self.name@
    }
}

impl DeepView for Method {
    type V = Seq<char>;

    open spec fn deep_view(&self) -> Seq<char> {
        self.name@
    }
}

/// The characters of an HTTP token.
pub open spec fn token_character(c: char) -> bool {
    ||| 'a' <= c <= 'z'
    ||| 'A' <= c <= 'Z'
    ||| '0' <= c <= '9'
    ||| c == '!'
    ||| '#' <= c <= '\''
    ||| c == '*'
    ||| c == '+'
    ||| c == '-'
    ||| c == '.'
    ||| c == '^'
    ||| c == '_'
    ||| c == '`'
    ||| c == '|'
    ||| c == '~'
}

/// Whether a text is an HTTP method: a token of at least one character.
pub open spec fn is_method(text: Seq<char>) -> bool {
    text.len() > 0 && forall|i: int| 0 <= i < text.len() ==> token_character(#[trigger] text[i])
}

/// Calls `str::parse` for `bytesize::ByteSize`.
///
/// Trusted: the outcome depends on the text alone.
#[verifier::external_body]
fn parse_byte_size(text: &str) -> (outcome: Result<u64, String>)
    ensures
        match outcome {
            Ok(bytes) => parsed_byte_size(text@) == Some(bytes),
            Err(_) => parsed_byte_size(text@) is None,
        },
{
    text.parse::<bytesize::ByteSize>().map(|size| size.0)
}

/// Calls `url::Url::parse`.
///
/// Trusted: the outcome depends on the text alone.
#[verifier::external_body]
fn parse_url(text: &str) -> (outcome: Result<String, url::ParseError>)
    ensures
        match outcome {
            Ok(normal) => parsed_url(text@) == Some(normal@),
            Err(_) => parsed_url(text@) is None,
        },
{
    url::Url::parse(text).map(|url| url.as_str().to_owned())
}

/// Calls `str::parse` for `axum::http::Method`.
///
/// Trusted: a method is a token of at least one character, and its name is the text itself.
#[verifier::external_body]
fn parse_method(text: &str) -> (outcome: Result<String, axum::http::method::InvalidMethod>)
    ensures
        match outcome {
            Ok(name) => is_method(text@) && name@ == text@,
            Err(_) => !is_method(text@),
        },
{
    text.parse::<axum::http::Method>().map(|method| method.as_str().to_owned())
}

impl ByteSize {
    /// Reads a size such as `100 MiB`.
    pub fn parse(text: &str) -> (size: Option<ByteSize>)
        ensures
            size == (match parsed_byte_size(text@) {
                Some(bytes) => Some(ByteSize(bytes)),
                None => None,
            }),
    {
        match parse_byte_size(text) {
            Ok(bytes) => Some(ByteSize(bytes)),
            Err(_) => None,
        }
    }
}

impl Url {
    /// Reads an absolute URL.
    pub fn parse(text: &str) -> (url: Option<Url>)
        ensures
            match url {
                Some(url) => parsed_url(text@) == Some(url@),
                None => parsed_url(text@) is None,
            },
    {
        match parse_url(text) {
            Ok(normal) => Some(Url { text: normal }),
            Err(_) => None,
        }
    }
}

impl Method {
    /// Reads an HTTP method.
    pub fn parse(text: &str) -> (method: Option<Method>)
        ensures
            match method {
                Some(method) => is_method(text@) && method@ == text@,
                None => !is_method(text@),
            },
    {
        match parse_method(text) {
            Ok(name) => Some(Method { name }),
            Err(_) => None,
        }
    }
}

impl DeepView for ByteSize {
    type V = ByteSize;

    open spec fn deep_view(&self) -> ByteSize {
        *self
    }
}

impl DeepView for IpAddr {
    type V = IpAddr;

    open spec fn deep_view(&self) -> IpAddr {
        *self
    }
}

impl DeepView for SocketAddr {
    type V = SocketAddr;

    open spec fn deep_view(&self) -> SocketAddr {
        *self
    }
}

} // verus!
