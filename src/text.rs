//! Text handed to the user interface: numbers, the backend's address, the
//! loading page and the scripts that update it.

use vstd::prelude::*;

verus! {

/// The loading page up to the point where the backend's port is written.
pub const LOADING_PAGE_HEAD: &'static str = "<!doctype html><html lang=\"zh-CN\"><head><meta charset=\"utf-8\"><meta name=\"viewport\" content=\"width=device-width,initial-scale=1\"><title>Invest Log</title><style>:root{color-scheme:light}html,body{height:100%;margin:0;font-family:-apple-system,BlinkMacSystemFont,Segoe UI,Roboto,Helvetica,Arial,sans-serif;background:#f8fafc;color:#0f172a}body{display:flex;align-items:center;justify-content:center}.wrap{display:flex;flex-direction:column;align-items:center;gap:12px;text-align:center;padding:24px 32px}.spinner{width:44px;height:44px;border-radius:50%;border:4px solid #e2e8f0;border-top-color:#2563eb;animation:spin 1s linear infinite}.title{font-size:20px;font-weight:700;letter-spacing:.3px}.status{font-size:14px;font-weight:600;color:#1e293b}.detail{font-size:12px;color:#64748b}@keyframes spin{to{transform:rotate(360deg)}}@media (prefers-reduced-motion: reduce){.spinner{animation:none}}</style></head><body><div class=\"wrap\"><div class=\"spinner\"></div><div class=\"title\">Invest Log</div><div id=\"status\" class=\"status\">系统初始化中…</div><div id=\"detail\" class=\"detail\">正在准备环境</div></div><script>(function(){const statusEl=document.getElementById(\"status\");const detailEl=document.getElementById(\"detail\");const startAt=Date.now();let port=null;let attempts=0;let stopped=false;function setPort(value){const parsed=Number(value);if(!Number.isFinite(parsed))return;port=parsed;attempts=0;detailEl.textContent=\"正在启动后台服务\";if(!stopped)ping();}function markTimeout(){statusEl.textContent=\"启动超时\";detailEl.textContent=\"请检查数据目录中的日志后重试\";stopped=true;}async function ping(){if(!port||stopped)return;const url=`http://127.0.0.1:${port}/api/health`;try{await fetch(url,{mode:\"no-cors\",cache:\"no-store\"});const target=`http://127.0.0.1:${port}/?t=${Date.now()}`;window.location.replace(target);return;}catch(e){attempts+=1;if(attempts%10===0){const seconds=Math.floor((Date.now()-startAt)/1000);detailEl.textContent=`已等待 ${seconds}s，仍在启动…`;}if(attempts>120){markTimeout();return;}setTimeout(ping,500);}}window.__INVEST_LOG_SET_PORT__=setPort;window.__INVEST_LOG_PORT__=";

/// The loading page after the backend's port.
pub const LOADING_PAGE_TAIL: &'static str = ";if(window.__INVEST_LOG_PORT__!==null){setPort(window.__INVEST_LOG_PORT__);}})();</script></body></html>";

/// The character of a decimal digit.
pub open spec fn digit_char(d: nat) -> char {
    if d == 0 {
        '0'
    } else if d == 1 {
        '1'
    } else if d == 2 {
        '2'
    } else if d == 3 {
        '3'
    } else if d == 4 {
        '4'
    } else if d == 5 {
        '5'
    } else if d == 6 {
        '6'
    } else if d == 7 {
        '7'
    } else if d == 8 {
        '8'
    } else {
        '9'
    }
}

/// The decimal notation of `n`, without leading zeros.
pub open spec fn decimal(n: nat) -> Seq<char>
    decreases n,
{
    if n < 10 {
        seq![digit_char(n)]
    } else {
        decimal(n / 10).push(digit_char(n % 10))
    }
}

/// The address of the backend's start page on `port`; `token` makes each
/// address fresh so that no cached page is shown.
pub open spec fn backend_url_text(port: nat, token: nat) -> Seq<char> {
    "http://127.0.0.1:"@ + decimal(port) + "/?t="@ + decimal(token)
}

/// How the loading page writes the port: a number, or `null` when it is not
/// known yet.
pub open spec fn port_literal(port: Option<u16>) -> Seq<char> {
    match port {
        Some(p) => decimal(p as nat),
        None => "null"@,
    }
}

/// The single digit `d` as text.
fn digit_text(d: u32) -> (r: &'static str)
    requires
        d < 10,
    ensures
        r@ == seq![digit_char(d as nat)],
{
    proof {
        reveal_strlit("0");
        reveal_strlit("1");
        reveal_strlit("2");
        reveal_strlit("3");
        reveal_strlit("4");
        reveal_strlit("5");
        reveal_strlit("6");
        reveal_strlit("7");
        reveal_strlit("8");
        reveal_strlit("9");
    }
    let r = if d == 0 {
        "0"
    } else if d == 1 {
        "1"
    } else if d == 2 {
        "2"
    } else if d == 3 {
        "3"
    } else if d == 4 {
        "4"
    } else if d == 5 {
        "5"
    } else if d == 6 {
        "6"
    } else if d == 7 {
        "7"
    } else if d == 8 {
        "8"
    } else {
        "9"
    };
    assert(r@ =~= seq![digit_char(d as nat)]);
    r
}

/// The decimal notation of `n`.
pub fn decimal_text(n: u32) -> (r: String)
    ensures
        r@ == decimal(n as nat),
    decreases n,
{
    if n < 10 {
        String::from_str(digit_text(n))
    } else {
        let mut r = decimal_text(n / 10);
        r.append(digit_text(n % 10));
        assert(r@ =~= decimal(n as nat));
        r
    }
}

/// The address of the backend's start page on `port`, made fresh by `token`.
pub fn backend_url(port: u16, token: u32) -> (r: String)
    ensures
        r@ == backend_url_text(port as nat, token as nat),
{
    let mut r = String::from_str("http://127.0.0.1:");
    r.append(decimal_text(port as u32).as_str());
    r.append("/?t=");
    r.append(decimal_text(token).as_str());
    r
}

/// The loading page, with the backend's port when it is known. The page
/// polls the backend itself once it has a port.
pub fn loading_html(port: Option<u16>) -> (r: String)
    ensures
        r@ == LOADING_PAGE_HEAD@ + port_literal(port) + LOADING_PAGE_TAIL@,
{
    let mut r = String::from_str(LOADING_PAGE_HEAD);
    match port {
        Some(p) => r.append(decimal_text(p as u32).as_str()),
        None => r.append("null"),
    }
    r.append(LOADING_PAGE_TAIL);
    r
}

} // verus!
