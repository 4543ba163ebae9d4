//! Scripts that the host runs in the application window to show the loading
//! page and the backend's status.

use vstd::prelude::*;
use crate::text::{decimal, decimal_text, loading_html, port_literal, LOADING_PAGE_HEAD, LOADING_PAGE_TAIL};

verus! {

/// Shown when the backend exits, or cannot be checked, before it answers.
pub const EARLY_EXIT_SCRIPT: &'static str = "document.body.innerHTML = '<h2>后台启动失败</h2><p>请检查数据目录中的日志后重试。</p>';";

/// Shown when the backend never answered.
pub const STARTUP_TIMEOUT_SCRIPT: &'static str = "document.body.innerHTML = '<h2>后台启动超时</h2><p>请检查数据目录中的日志后重试。</p>';";

/// The start and the end of the script shown when the backend could not be
/// started; the error's text stands between them.
pub const LAUNCH_FAILURE_HEAD: &'static str = "document.body.innerHTML = '<h2>后台启动失败</h2><p>";

pub const LAUNCH_FAILURE_TAIL: &'static str = "</p>';";

/// The script that replaces the document with a page: it stands around the
/// page as a JSON string.
pub const WRITE_PAGE_HEAD: &'static str = "document.open();document.write(";

pub const WRITE_PAGE_TAIL: &'static str = ");document.close();";

/// A lower-case hexadecimal digit.
pub open spec fn hex_digit(d: u32) -> char {
    if d < 10 {
        ((d + 48) as u8) as char
    } else {
        ((d + 87) as u8) as char
    }
}

/// How one character stands inside a JSON string literal: quote and
/// backslash behind a backslash, the usual short escapes for backspace, tab,
/// line feed, form feed and carriage return, `\u00XX` for the other control
/// characters, and anything else as it is.
pub open spec fn json_char_text(c: char) -> Seq<char> {
    if c == '"' {
        seq!['\\', '"']
    } else if c == '\\' {
        seq!['\\', '\\']
    } else if c == '\u{8}' {
        seq!['\\', 'b']
    } else if c == '\t' {
        seq!['\\', 't']
    } else if c == '\n' {
        seq!['\\', 'n']
    } else if c == '\u{c}' {
        seq!['\\', 'f']
    } else if c == '\r' {
        seq!['\\', 'r']
    } else if (c as u32) < 32 {
        seq!['\\', 'u', '0', '0', hex_digit((c as u32) / 16), hex_digit((c as u32) % 16)]
    } else {
        seq![c]
    }
}

/// The characters of `s`, each as it stands inside a JSON string literal.
pub open spec fn json_escaped(s: Seq<char>) -> Seq<char>
    decreases s.len(),
{
    if s.len() == 0 {
        Seq::empty()
    } else {
        json_escaped(s.drop_last()) + json_char_text(s.last())
    }
}

/// The JSON string literal of `s`.
pub open spec fn json_string_text(s: Seq<char>) -> Seq<char> {
    seq!['"'] + json_escaped(s) + seq!['"']
}

/// Relies on serde_json::to_string on a string slice: it writes the string
/// between double quotes, escaping each character by serde_json's escape
/// table, into a byte vector, which cannot fail.
#[verifier::external_body]
fn json_string(s: &str) -> (r: Option<String>)
    ensures
        r is Some,
        r matches Some(t) ==> t@ == json_string_text(s@),
{
    serde_json::to_string(s).ok()
}

/// `s` without its single quotes.
pub open spec fn without_quotes(s: Seq<char>) -> Seq<char>
    decreases s.len(),
{
    if s.len() == 0 {
        s
    } else if s.last() == '\'' {
        without_quotes(s.drop_last())
    } else {
        without_quotes(s.drop_last()).push(s.last())
    }
}

/// The script that tells the loading page the backend's port.
pub open spec fn port_notice_text(port: u16) -> Seq<char> {
    "window.__INVEST_LOG_PORT__ = "@ + decimal(port as nat)
        + "; window.__INVEST_LOG_SET_PORT__ && window.__INVEST_LOG_SET_PORT__("@ + decimal(
        port as nat,
    ) + ");"@
}

/// `s` without its single quotes, so that it can stand in a quoted script
/// string.
pub fn strip_quotes(s: &str) -> (r: String)
    ensures
        r@ == without_quotes(s@),
{
    let n = s.unicode_len();
    let mut r = String::new();
    let mut i: usize = 0;
    while i < n
        invariant
            n == s@.len(),
            i <= n,
            r@ == without_quotes(s@.subrange(0, i as int)),
        decreases n - i,
    {
        let c = s.get_char(i);
        proof {
            let next = s@.subrange(0, i + 1);
            assert(next.drop_last() =~= s@.subrange(0, i as int));
            assert(next.last() == c);
        }
        if c != '\'' {
            let one = s.substring_char(i, i + 1);
            assert(one@ =~= seq![c]);
            r.append(one);
        }
        i = i + 1;
    }
    assert(s@.subrange(0, n as int) =~= s@);
    r
}

/// The script shown when the backend could not be started, with the error's
/// text.
pub fn launch_failure_script(error: &str) -> (r: String)
    ensures
        r@ == LAUNCH_FAILURE_HEAD@ + without_quotes(error@) + LAUNCH_FAILURE_TAIL@,
{
    let mut r = String::from_str(LAUNCH_FAILURE_HEAD);
    r.append(strip_quotes(error).as_str());
    r.append(LAUNCH_FAILURE_TAIL);
    r
}

/// The script that tells the loading page the backend's port.
pub fn port_notice_script(port: u16) -> (r: String)
    ensures
        r@ == port_notice_text(port),
{
    let p = decimal_text(port as u32);
    let mut r = String::from_str("window.__INVEST_LOG_PORT__ = ");
    r.append(p.as_str());
    r.append("; window.__INVEST_LOG_SET_PORT__ && window.__INVEST_LOG_SET_PORT__(");
    r.append(p.as_str());
    r.append(");");
    r
}

/// The script that writes a page, given the page as a JSON string literal.
pub fn page_writer_script(page_json: &str) -> (r: String)
    ensures
        r@ == WRITE_PAGE_HEAD@ + page_json@ + WRITE_PAGE_TAIL@,
{
    let mut r = String::from_str(WRITE_PAGE_HEAD);
    r.append(page_json);
    r.append(WRITE_PAGE_TAIL);
    r
}

/// The script that replaces the document with `page`, written as a JSON
/// string literal.
pub fn page_script(page: &str) -> (r: Option<String>)
    ensures
        r matches Some(s) && s@ == WRITE_PAGE_HEAD@ + json_string_text(page@) + WRITE_PAGE_TAIL@,
{
    match json_string(page) {
        Some(json) => Some(page_writer_script(json.as_str())),
        None => None,
    }
}

/// The script that shows the loading page, with the backend's port when it
/// is known.
pub fn loading_script(port: Option<u16>) -> (r: Option<String>)
    ensures
        r matches Some(s) && s@ == WRITE_PAGE_HEAD@ + json_string_text(
            LOADING_PAGE_HEAD@ + port_literal(port) + LOADING_PAGE_TAIL@,
        ) + WRITE_PAGE_TAIL@,
{
    let page = loading_html(port);
    page_script(page.as_str())
}

/// The script that sends the window to `url` where the window cannot
/// navigate there itself.
pub fn redirect_script(url: &str) -> (r: String)
    ensures
        r@ == "window.location.replace('"@ + url@ + "');"@,
{
    let mut r = String::from_str("window.location.replace('");
    r.append(url);
    r.append("');");
    r
}

} // verus!
