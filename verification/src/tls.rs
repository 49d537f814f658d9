//! Notices about the server speaking plain HTTP only.

use vstd::prelude::*;
use crate::number::{decimal_string, decimal_text};
use crate::text::{owned, push_char, push_str};

verus! {

broadcast use vstd::string::group_string_axioms;

/// The notice text before the port.
pub open spec fn notice_head() -> Seq<char> {
    "\n\u{250c}\u{2500}\u{2500}\u{2500}\u{2500}\u{2500}\u{2500}\u{2500}\u{2500}\u{2500}\u{2500}\u{2500}\u{2500}\u{2500}\u{2500}\u{2500}\u{2500}\u{2500}\u{2500}\u{2500}\u{2500}\u{2500}\u{2500}\u{2500}\u{2500}\u{2500}\u{2500}\u{2500}\u{2500}\u{2500}\u{2500}\u{2500}\u{2500}\u{2500}\u{2500}\u{2500}\u{2500}\u{2500}\u{2500}\u{2500}\u{2500}\u{2500}\u{2500}\u{2500}\u{2500}\u{2500}\u{2500}\u{2500}\u{2500}\u{2500}\u{2500}\u{2500}\u{2500}\u{2500}\u{2500}\u{2500}\u{2500}\u{2500}\u{2500}\u{2500}\u{2500}\u{2500}\u{2500}\u{2500}\u{2500}\u{2500}\u{2510}\n\u{2502} \u{26a0}\u{fe0f}  IMPORTANT: This server uses HTTP only (not HTTPS)          \u{2502}\n\u{2502}                                                                 \u{2502}\n\u{2502} HTTPS/TLS attempts are detected and a helpful error message    \u{2502}\n\u{2502} is logged automatically. Make sure to use:                     \u{2502}\n\u{2502}                                                                 \u{2502}\n\u{2502}   http://127.0.0.1:"@
}

/// The notice text after the port.
pub open spec fn notice_tail() -> Seq<char> {
    " (not https://)                          \u{2502}\n\u{2514}\u{2500}\u{2500}\u{2500}\u{2500}\u{2500}\u{2500}\u{2500}\u{2500}\u{2500}\u{2500}\u{2500}\u{2500}\u{2500}\u{2500}\u{2500}\u{2500}\u{2500}\u{2500}\u{2500}\u{2500}\u{2500}\u{2500}\u{2500}\u{2500}\u{2500}\u{2500}\u{2500}\u{2500}\u{2500}\u{2500}\u{2500}\u{2500}\u{2500}\u{2500}\u{2500}\u{2500}\u{2500}\u{2500}\u{2500}\u{2500}\u{2500}\u{2500}\u{2500}\u{2500}\u{2500}\u{2500}\u{2500}\u{2500}\u{2500}\u{2500}\u{2500}\u{2500}\u{2500}\u{2500}\u{2500}\u{2500}\u{2500}\u{2500}\u{2500}\u{2500}\u{2500}\u{2500}\u{2500}\u{2500}\u{2500}\u{2518}"@
}

/// `s` left-aligned in a field of four characters (longer text is kept whole).
pub open spec fn pad4(s: Seq<char>) -> Seq<char> {
    if s.len() < 4 {
        s + Seq::new((4 - s.len()) as nat, |i: int| ' ')
    } else {
        s
    }
}

/// The startup notice that the server speaks HTTP only, naming the port.
pub fn format_http_only_notice(port: u16) -> (r: String)
    ensures
        r@ == notice_head() + pad4(decimal_text(port as nat)) + notice_tail(),
{
    let mut out = owned("\n\u{250c}\u{2500}\u{2500}\u{2500}\u{2500}\u{2500}\u{2500}\u{2500}\u{2500}\u{2500}\u{2500}\u{2500}\u{2500}\u{2500}\u{2500}\u{2500}\u{2500}\u{2500}\u{2500}\u{2500}\u{2500}\u{2500}\u{2500}\u{2500}\u{2500}\u{2500}\u{2500}\u{2500}\u{2500}\u{2500}\u{2500}\u{2500}\u{2500}\u{2500}\u{2500}\u{2500}\u{2500}\u{2500}\u{2500}\u{2500}\u{2500}\u{2500}\u{2500}\u{2500}\u{2500}\u{2500}\u{2500}\u{2500}\u{2500}\u{2500}\u{2500}\u{2500}\u{2500}\u{2500}\u{2500}\u{2500}\u{2500}\u{2500}\u{2500}\u{2500}\u{2500}\u{2500}\u{2500}\u{2500}\u{2500}\u{2500}\u{2510}\n\u{2502} \u{26a0}\u{fe0f}  IMPORTANT: This server uses HTTP only (not HTTPS)          \u{2502}\n\u{2502}                                                                 \u{2502}\n\u{2502} HTTPS/TLS attempts are detected and a helpful error message    \u{2502}\n\u{2502} is logged automatically. Make sure to use:                     \u{2502}\n\u{2502}                                                                 \u{2502}\n\u{2502}   http://127.0.0.1:");
    let digits = decimal_string(port as u64);
    push_str(&mut out, digits.as_str());
    let ghost d = digits@;
    let mut n = digits.as_str().unicode_len();
    while n < 4
        invariant
            d == decimal_text(port as nat),
            d.len() <= n <= 4 || (n == d.len() && d.len() > 4),
            out@ == "\n\u{250c}\u{2500}\u{2500}\u{2500}\u{2500}\u{2500}\u{2500}\u{2500}\u{2500}\u{2500}\u{2500}\u{2500}\u{2500}\u{2500}\u{2500}\u{2500}\u{2500}\u{2500}\u{2500}\u{2500}\u{2500}\u{2500}\u{2500}\u{2500}\u{2500}\u{2500}\u{2500}\u{2500}\u{2500}\u{2500}\u{2500}\u{2500}\u{2500}\u{2500}\u{2500}\u{2500}\u{2500}\u{2500}\u{2500}\u{2500}\u{2500}\u{2500}\u{2500}\u{2500}\u{2500}\u{2500}\u{2500}\u{2500}\u{2500}\u{2500}\u{2500}\u{2500}\u{2500}\u{2500}\u{2500}\u{2500}\u{2500}\u{2500}\u{2500}\u{2500}\u{2500}\u{2500}\u{2500}\u{2500}\u{2500}\u{2500}\u{2510}\n\u{2502} \u{26a0}\u{fe0f}  IMPORTANT: This server uses HTTP only (not HTTPS)          \u{2502}\n\u{2502}                                                                 \u{2502}\n\u{2502} HTTPS/TLS attempts are detected and a helpful error message    \u{2502}\n\u{2502} is logged automatically. Make sure to use:                     \u{2502}\n\u{2502}                                                                 \u{2502}\n\u{2502}   http://127.0.0.1:"@ + d + Seq::new((n - d.len()) as nat, |i: int| ' '),
        decreases 4 - n,
    {
        push_char(&mut out, ' ');
        assert(Seq::new((n + 1 - d.len()) as nat, |i: int| ' ') =~= Seq::new((n - d.len()) as nat, |i: int| ' ').push(' '));
        n += 1;
    }
    proof {
        if d.len() >= 4 {
            assert(Seq::new((n - d.len()) as nat, |i: int| ' ') =~= Seq::<char>::empty());
        }
    }
    push_str(&mut out, " (not https://)                          \u{2502}\n\u{2514}\u{2500}\u{2500}\u{2500}\u{2500}\u{2500}\u{2500}\u{2500}\u{2500}\u{2500}\u{2500}\u{2500}\u{2500}\u{2500}\u{2500}\u{2500}\u{2500}\u{2500}\u{2500}\u{2500}\u{2500}\u{2500}\u{2500}\u{2500}\u{2500}\u{2500}\u{2500}\u{2500}\u{2500}\u{2500}\u{2500}\u{2500}\u{2500}\u{2500}\u{2500}\u{2500}\u{2500}\u{2500}\u{2500}\u{2500}\u{2500}\u{2500}\u{2500}\u{2500}\u{2500}\u{2500}\u{2500}\u{2500}\u{2500}\u{2500}\u{2500}\u{2500}\u{2500}\u{2500}\u{2500}\u{2500}\u{2500}\u{2500}\u{2500}\u{2500}\u{2500}\u{2500}\u{2500}\u{2500}\u{2500}\u{2500}\u{2518}");
    assert(out@ =~= notice_head() + pad4(decimal_text(port as nat)) + notice_tail());
    out
}

/// The lines logged when a client seems to speak TLS to the HTTP server.
pub open spec fn https_error_lines_text() -> Seq<Seq<char>> {
    seq!["\n\u{250c}\u{2500}\u{2500}\u{2500}\u{2500}\u{2500}\u{2500}\u{2500}\u{2500}\u{2500}\u{2500}\u{2500}\u{2500}\u{2500}\u{2500}\u{2500}\u{2500}\u{2500}\u{2500}\u{2500}\u{2500}\u{2500}\u{2500}\u{2500}\u{2500}\u{2500}\u{2500}\u{2500}\u{2500}\u{2500}\u{2500}\u{2500}\u{2500}\u{2500}\u{2500}\u{2500}\u{2500}\u{2500}\u{2500}\u{2500}\u{2500}\u{2500}\u{2500}\u{2500}\u{2500}\u{2500}\u{2500}\u{2500}\u{2500}\u{2500}\u{2500}\u{2500}\u{2500}\u{2500}\u{2500}\u{2500}\u{2500}\u{2500}\u{2500}\u{2500}\u{2500}\u{2500}\u{2500}\u{2500}\u{2500}\u{2500}\u{2510}"@,
        "\u{2502} \u{274c} HTTP Parse Error - Likely HTTPS/TLS to HTTP Server          \u{2502}"@,
        "\u{2502}                                                                 \u{2502}"@,
        "\u{2502} Your client is probably using https:// instead of http://      \u{2502}"@,
        "\u{2502} This server does NOT support HTTPS/TLS connections.            \u{2502}"@,
        "\u{2502}                                                                 \u{2502}"@,
        "\u{2502} Fix: Change your client configuration to use http://           \u{2502}"@,
        "\u{2514}\u{2500}\u{2500}\u{2500}\u{2500}\u{2500}\u{2500}\u{2500}\u{2500}\u{2500}\u{2500}\u{2500}\u{2500}\u{2500}\u{2500}\u{2500}\u{2500}\u{2500}\u{2500}\u{2500}\u{2500}\u{2500}\u{2500}\u{2500}\u{2500}\u{2500}\u{2500}\u{2500}\u{2500}\u{2500}\u{2500}\u{2500}\u{2500}\u{2500}\u{2500}\u{2500}\u{2500}\u{2500}\u{2500}\u{2500}\u{2500}\u{2500}\u{2500}\u{2500}\u{2500}\u{2500}\u{2500}\u{2500}\u{2500}\u{2500}\u{2500}\u{2500}\u{2500}\u{2500}\u{2500}\u{2500}\u{2500}\u{2500}\u{2500}\u{2500}\u{2500}\u{2500}\u{2500}\u{2500}\u{2500}\u{2500}\u{2518}"@]
}

/// The lines logged when a client seems to speak TLS to the HTTP server.
pub fn https_error_lines() -> (r: Vec<&'static str>)
    ensures
        r@.map_values(|s: &str| s@) == https_error_lines_text(),
{
    let mut v: Vec<&'static str> = Vec::new();
    v.push("\n\u{250c}\u{2500}\u{2500}\u{2500}\u{2500}\u{2500}\u{2500}\u{2500}\u{2500}\u{2500}\u{2500}\u{2500}\u{2500}\u{2500}\u{2500}\u{2500}\u{2500}\u{2500}\u{2500}\u{2500}\u{2500}\u{2500}\u{2500}\u{2500}\u{2500}\u{2500}\u{2500}\u{2500}\u{2500}\u{2500}\u{2500}\u{2500}\u{2500}\u{2500}\u{2500}\u{2500}\u{2500}\u{2500}\u{2500}\u{2500}\u{2500}\u{2500}\u{2500}\u{2500}\u{2500}\u{2500}\u{2500}\u{2500}\u{2500}\u{2500}\u{2500}\u{2500}\u{2500}\u{2500}\u{2500}\u{2500}\u{2500}\u{2500}\u{2500}\u{2500}\u{2500}\u{2500}\u{2500}\u{2500}\u{2500}\u{2500}\u{2510}");
    v.push("\u{2502} \u{274c} HTTP Parse Error - Likely HTTPS/TLS to HTTP Server          \u{2502}");
    v.push("\u{2502}                                                                 \u{2502}");
    v.push("\u{2502} Your client is probably using https:// instead of http://      \u{2502}");
    v.push("\u{2502} This server does NOT support HTTPS/TLS connections.            \u{2502}");
    v.push("\u{2502}                                                                 \u{2502}");
    v.push("\u{2502} Fix: Change your client configuration to use http://           \u{2502}");
    v.push("\u{2514}\u{2500}\u{2500}\u{2500}\u{2500}\u{2500}\u{2500}\u{2500}\u{2500}\u{2500}\u{2500}\u{2500}\u{2500}\u{2500}\u{2500}\u{2500}\u{2500}\u{2500}\u{2500}\u{2500}\u{2500}\u{2500}\u{2500}\u{2500}\u{2500}\u{2500}\u{2500}\u{2500}\u{2500}\u{2500}\u{2500}\u{2500}\u{2500}\u{2500}\u{2500}\u{2500}\u{2500}\u{2500}\u{2500}\u{2500}\u{2500}\u{2500}\u{2500}\u{2500}\u{2500}\u{2500}\u{2500}\u{2500}\u{2500}\u{2500}\u{2500}\u{2500}\u{2500}\u{2500}\u{2500}\u{2500}\u{2500}\u{2500}\u{2500}\u{2500}\u{2500}\u{2500}\u{2500}\u{2500}\u{2500}\u{2500}\u{2518}");
    assert(v@.map_values(|s: &str| s@) =~= https_error_lines_text());
    v
}

/// The body answered to HTTPS requests on the rejection port.
pub open spec fn https_rejection_text() -> Seq<char> {
    "HTTPS/TLS Not Supported\n========================\n\nThis server does not support HTTPS connections.\nPlease reconfigure your client to use plain HTTP instead.\n\nChange: https://127.0.0.1:PORT\nTo:     http://127.0.0.1:PORT\n\nThe HTTP-only port is typically one less than this HTTPS port.\n"@
}

/// The body answered to HTTPS requests on the rejection port.
pub fn https_rejection_body() -> (r: &'static str)
    ensures
        r@ == https_rejection_text(),
{
    "HTTPS/TLS Not Supported\n========================\n\nThis server does not support HTTPS connections.\nPlease reconfigure your client to use plain HTTP instead.\n\nChange: https://127.0.0.1:PORT\nTo:     http://127.0.0.1:PORT\n\nThe HTTP-only port is typically one less than this HTTPS port.\n"
}

} // verus!
