//! Events of a web page, and the line that reports each.
use vstd::prelude::*;
use vstd::string::StringExecFns;
use crate::text::{signed_decimal, signed_decimal_text};

verus! {

/// Something that happened on a page.
#[derive(Debug, Clone, PartialEq, Eq)]
pub enum WebEvent {
    PageLoad,
    PageUnload,
    KeyPress(char),
    Paste(String),
    Click { x: i64, y: i64 },
}

/// Relies on `char`'s `to_string`: the one character.
#[verifier::external_body]
fn char_text(c: char) -> (r: String)
    ensures
        r@ == seq![c],
{
    c.to_string()
}

/// The line that reports `e`.
pub open spec fn event_text(e: &WebEvent) -> Seq<char> {
    match e {
        WebEvent::PageLoad => "Page is loading..."@,
        WebEvent::PageUnload => "Page is unloading..."@,
        WebEvent::KeyPress(c) => "Key press: "@ + seq![*c],
        WebEvent::Paste(s) => "Pasted \""@ + s@ + "\""@,
        WebEvent::Click { x, y } => "Clicked @ x="@ + signed_decimal_text(*x as int) + ", y="@
            + signed_decimal_text(*y as int),
    }
}

/// The line that reports `event`.
pub fn inspect(event: WebEvent) -> (r: String)
    ensures
        r@ == event_text(&event),
{
    match event {
        WebEvent::PageLoad => String::from_str("Page is loading..."),
        WebEvent::PageUnload => String::from_str("Page is unloading..."),
        WebEvent::KeyPress(c) => {
            let mut s = String::from_str("Key press: ");
            let k = char_text(c);
            s.append(k.as_str());
            s
        },
        WebEvent::Paste(p) => {
            let mut s = String::from_str("Pasted \"");
            s.append(p.as_str());
            s.append("\"");
            s
        },
        WebEvent::Click { x, y } => {
            let mut s = String::from_str("Clicked @ x=");
            let xs = signed_decimal(x);
            s.append(xs.as_str());
            s.append(", y=");
            let ys = signed_decimal(y);
            s.append(ys.as_str());
            s
        },
    }
}

} // verus!
