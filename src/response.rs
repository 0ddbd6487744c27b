use crate::error::Error;
use vstd::prelude::*;

verus! {

/// What mime's parser makes of a media type: its type and subtype (both
/// lower-cased by the parser), or `None` when the text is no media type.
pub uninterp spec fn mime_parts(text: Seq<char>) -> Option<(Seq<char>, Seq<char>)>;

/// Relies on `<mime::Mime as FromStr>::from_str`, with `Mime::type_` and
/// `Mime::subtype`, to split a media type into its type and subtype.
#[verifier::external_body]
fn parse_mime(text: &str) -> (r: Option<(String, String)>)
    ensures
        match r {
            Some((t, st)) => mime_parts(text@) == Some((t@, st@)),
            None => mime_parts(text@) is None,
        },
{
    match text.parse::<mime::Mime>() {
        Ok(m) => Some((m.type_().as_str().to_string(), m.subtype().as_str().to_string())),
        Err(_) => None,
    }
}

/// Relies on `std::str::from_utf8`: ASCII bytes are the UTF-8 encoding of the
/// characters with the same codes.
#[verifier::external_body]
fn ascii_text(bytes: &[u8]) -> (r: String)
    requires
        forall|i: int| 0 <= i < bytes@.len() ==> bytes@[i] < 128,
    ensures
        r@ == ascii_chars(bytes@),
{
    match std::str::from_utf8(bytes) {
        Ok(s) => s.to_string(),
        Err(_) => String::new(),
    }
}

/// The characters whose codes are the given bytes.
pub open spec fn ascii_chars(bytes: Seq<u8>) -> Seq<char> {
    bytes.map_values(|b: u8| b as char)
}

/// A byte that a header value may hold when it is read as text: a visible
/// ASCII character, a space or a tab.
pub open spec fn is_visible_ascii(b: u8) -> bool {
    (32 <= b && b < 127) || b == 9
}

/// Whether a content-type header value names the media type
/// `text/event-stream`, whatever its parameters.
pub open spec fn content_type_accepted(value: Seq<u8>) -> bool {
    &&& forall|i: int| 0 <= i < value.len() ==> is_visible_ascii(#[trigger] value[i])
    &&& match mime_parts(ascii_chars(value)) {
        Some((t, st)) => t == "text"@ && st == "event-stream"@,
        None => false,
    }
}

/// Whether a response with this status and content-type header may begin an
/// event stream.
pub open spec fn response_accepted(status: u16, content_type: Option<Seq<u8>>) -> bool {
    status == 200 && match content_type {
        Some(value) => content_type_accepted(value),
        None => false,
    }
}

/// The error that refuses a response with this status and content-type
/// header: the status when it is not 200, else the header value (empty when
/// the header is absent).
pub open spec fn rejection(status: u16, content_type: Option<Seq<u8>>, error: Error) -> bool {
    if status != 200 {
        error == Error::InvalidStatusCode(status)
    } else {
        match error {
            Error::InvalidContentType(v) => v@ == match content_type {
                Some(value) => value,
                None => Seq::empty(),
            },
            _ => false,
        }
    }
}

/// The header value's bytes, if it is present.
pub open spec fn header_bytes(content_type: Option<&Vec<u8>>) -> Option<Seq<u8>> {
    match content_type {
        Some(v) => Some(v@),
        None => None,
    }
}

/// Whether a parsed media type is `text/event-stream`.
pub fn is_event_stream(type_: &str, subtype: &str) -> (r: bool)
    ensures
        r == (type_@ == "text"@ && subtype@ == "event-stream"@),
{
    let text = "text".to_owned();
    let event_stream = "event-stream".to_owned();
    let t = type_.to_owned();
    let st = subtype.to_owned();
    t == text && st == event_stream
}

fn copy_bytes(bytes: &Vec<u8>) -> (r: Vec<u8>)
    ensures
        r@ == bytes@,
{
    let r = bytes.clone();
    assert(r@ =~= bytes@);
    r
}

/// Checks that a freshly received response may begin an event stream: its
/// status is 200 and its content type is `text/event-stream`.
pub fn check_response(status: u16, content_type: Option<&Vec<u8>>) -> (r: Result<(), Error>)
    ensures
        match r {
            Ok(_) => response_accepted(status, header_bytes(content_type)),
            Err(e) => !response_accepted(status, header_bytes(content_type)) && rejection(
                status,
                header_bytes(content_type),
                e,
            ),
        },
{
    if status != 200 {
        return Err(Error::InvalidStatusCode(status));
    }
    let value = match content_type {
        Some(v) => v,
        None => {
            return Err(Error::InvalidContentType(Vec::new()));
        },
    };
    let mut i: usize = 0;
    while i < value.len()
        invariant
            content_type == Some(value),
            status == 200,
            i <= value@.len(),
            forall|j: int| 0 <= j < i ==> is_visible_ascii(#[trigger] value@[j]),
        decreases value@.len() - i,
    {
        let b = value[i];
        if !((32 <= b && b < 127) || b == 9) {
            assert(!is_visible_ascii(value@[i as int]));
            return Err(Error::InvalidContentType(copy_bytes(value)));
        }
        i = i + 1;
    }
    let text = ascii_text(value.as_slice());
    match parse_mime(text.as_str()) {
        Some((t, st)) => {
            if is_event_stream(t.as_str(), st.as_str()) {
                Ok(())
            } else {
                Err(Error::InvalidContentType(copy_bytes(value)))
            }
        },
        None => Err(Error::InvalidContentType(copy_bytes(value))),
    }
}

} // verus!
