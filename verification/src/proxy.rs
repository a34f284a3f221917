//! The local blocking proxy: which hosts it refuses, how it reads a client's
//! request, what it answers, and the log it keeps.
use vstd::prelude::*;
use vstd::string::StringSliceAdditionalSpecFns;

use crate::focus::views_of_strings;
use crate::models::{chars_are, str_views, UrlMapping};
use crate::text::{
    chars_of, concat_chars, contains_chars, decimal, decimal_string, ends_with_chars, first_line,
    first_line_chars, has_prefix, has_substring, has_suffix, lit_then, lower_chars, lowercase_of,
    parse_u16, parse_u16_chars, slice_chars, split_char, split_on_char, split_on_seq, split_seq,
    starts_with_chars, string_of, views, words, words_chars,
};

verus! {

/// The default port of the proxy, used until another one is configured.
pub const PROXY_PORT: u16 = 62828;

/// The domains a proxy refuses, with their subdomains, until it is given
/// the user's list.
pub open spec fn blocked_domain_list() -> Seq<Seq<char>> {
    seq![
        "facebook.com"@,
        "www.facebook.com"@,
        "fb.com"@,
        "www.fb.com"@,
        "instagram.com"@,
        "www.instagram.com"@,
    ]
}

/// The blocked domains, as literals.
fn blocked_domain_literals() -> (res: Vec<&'static str>)
    ensures
        str_views(res@) == blocked_domain_list(),
{
    let v = vec![
        "facebook.com",
        "www.facebook.com",
        "fb.com",
        "www.fb.com",
        "instagram.com",
        "www.instagram.com",
    ];
    assert(str_views(v@) =~= blocked_domain_list());
    v
}

/// The blocked domains a proxy starts with.
fn default_blocked_domains() -> (res: Vec<String>)
    ensures
        views_of_strings(res@) == blocked_domain_list(),
{
    let lits = blocked_domain_literals();
    let mut res: Vec<String> = Vec::new();
    let mut i: usize = 0;
    while i < lits.len()
        invariant
            i <= lits@.len(),
            res@.len() == i,
            str_views(lits@) == blocked_domain_list(),
            views_of_strings(res@) == str_views(lits@).take(i as int),
        decreases lits@.len() - i,
    {
        res.push(String::from_str(lits[i]));
        assert(views_of_strings(res@)[i as int] == str_views(lits@)[i as int]);
        i = i + 1;
        assert(views_of_strings(res@) =~= str_views(lits@).take(i as int));
    }
    assert(str_views(lits@).take(i as int) =~= str_views(lits@));
    res
}

/// A copy of a list of strings.
fn copy_strings(v: &Vec<String>) -> (res: Vec<String>)
    ensures
        views_of_strings(res@) == views_of_strings(v@),
{
    let mut res: Vec<String> = Vec::new();
    let mut i: usize = 0;
    while i < v.len()
        invariant
            i <= v@.len(),
            res@.len() == i,
            views_of_strings(res@) == views_of_strings(v@).take(i as int),
        decreases v@.len() - i,
    {
        res.push(v[i].clone());
        assert(views_of_strings(res@)[i as int] == views_of_strings(v@)[i as int]);
        i = i + 1;
        assert(views_of_strings(res@) =~= views_of_strings(v@).take(i as int));
    }
    assert(views_of_strings(v@).take(i as int) =~= views_of_strings(v@));
    res
}

impl LocalProxyBlocker {
    /// The domains the proxy refuses.
    pub fn get_blocked_domains(&self) -> (res: Vec<String>)
        ensures
            views_of_strings(res@) == self.blocked(),
    {
        copy_strings(&self.blocked_domains)
    }

    /// Replaces the domains the proxy refuses (the user's block list).
    pub fn set_blocked_domains(&mut self, domains: Vec<String>)
        ensures
            final(self).blocked() == views_of_strings(domains@),
            final(self).port() == old(self).port(),
            final(self)@ == old(self)@,
    {
        proof {
            use_type_invariant(&*self);
        }
        self.blocked_domains = domains;
    }

    /// Sets the port the proxy listens on (the configured port).
    pub fn set_proxy_port(&mut self, port: u16)
        ensures
            final(self).port() == port,
            final(self).blocked() == old(self).blocked(),
            final(self)@ == old(self)@,
    {
        proof {
            use_type_invariant(&*self);
        }
        self.port = port;
    }

    /// The address the proxy listens on: the loopback address and the
    /// configured port.
    pub fn get_proxy_info(&self) -> (res: (String, u16))
        ensures
            res.0@ == "127.0.0.1"@,
            res.1 == self.port(),
    {
        (String::from_str("127.0.0.1"), self.port)
    }

    /// The proxy always blocks the domains on its list.
    pub fn is_blocking(&self) -> (res: bool)
        ensures
            res,
    {
        true
    }
}

// ---------------------------------------------------------------------------
// Hosts
// ---------------------------------------------------------------------------

/// The host name of `host` ("name" or "name:port"), lowercased.
pub open spec fn host_name(host: Seq<char>) -> Seq<char> {
    lowercase_of(split_char(host, ':')[0])
}

/// Whether a proxy with the block list `list` refuses `host`: its name is a
/// domain on the list or a subdomain of one.
pub open spec fn domain_blocked(host: Seq<char>, list: Seq<Seq<char>>) -> bool {
    let c = host_name(host);
    exists|k: int|
        0 <= k < list.len() && (c == #[trigger] list[k] || has_suffix(c, "."@ + list[k]))
}

impl LocalProxyBlocker {
    /// Whether a proxy with the block list `blocked` refuses `host`.
    pub fn is_domain_blocked(host: &str, blocked: &Vec<String>) -> (res: bool)
        ensures
            res == domain_blocked(host@, views_of_strings(blocked@)),
    {
        let ghost list = views_of_strings(blocked@);
        let h = chars_of(host);
        let pieces = split_on_char(&h, ':');
        assert(views(pieces@)[0] == pieces@[0]@);
        let clean = lower_chars(&pieces[0]);
        let mut k: usize = 0;
        while k < blocked.len()
            invariant
                k <= blocked@.len(),
                list == views_of_strings(blocked@),
                clean@ == host_name(host@),
                forall|j: int|
                    0 <= j < k ==> !(clean@ == #[trigger] list[j] || has_suffix(clean@, "."@ + list[j])),
            decreases blocked@.len() - k,
        {
            let d = chars_of(blocked[k].as_str());
            assert(d@ == list[k as int]);
            let dotted = lit_then(".", &d);
            if crate::text::chars_eq(&clean, &d) || ends_with_chars(&clean, &dotted) {
                return true;
            }
            k = k + 1;
        }
        false
    }
}

/// The host a request target names: after "http://" or "https://" (or any
/// other scheme), up to the first '/'.
pub open spec fn host_of(url: Seq<char>) -> Option<Seq<char>> {
    if has_prefix(url, "http://"@) {
        Some(split_char(url.skip(7), '/')[0])
    } else if has_prefix(url, "https://"@) {
        Some(split_char(url.skip(8), '/')[0])
    } else if has_substring(url, "://"@) {
        let parts = split_seq(url, "://"@);
        if parts.len() >= 2 {
            Some(split_char(parts[1], '/')[0])
        } else {
            None
        }
    } else {
        Some(split_char(url, '/')[0])
    }
}

/// The part of `v` before its first '/'.
fn before_slash(v: &Vec<char>) -> (res: Vec<char>)
    ensures
        res@ == split_char(v@, '/')[0],
{
    let pieces = split_on_char(v, '/');
    assert(views(pieces@)[0] == pieces@[0]@);
    pieces[0].clone()
}

impl LocalProxyBlocker {
/// The host that a request target names.
pub fn extract_host_from_url(url: &str) -> (res: Option<String>)
    ensures
        match res {
            Some(h) => host_of(url@) == Some(h@),
            None => host_of(url@) is None,
        },
{
    let u = chars_of(url);
    proof {
        reveal_strlit("http://");
        reveal_strlit("https://");
        reveal_strlit("://");
    }
    if starts_with_chars(&u, &chars_of("http://")) {
        let rest = slice_chars(&u, 7, u.len());
        assert(rest@ =~= u@.skip(7));
        Some(string_of(&before_slash(&rest)))
    } else if starts_with_chars(&u, &chars_of("https://")) {
        let rest = slice_chars(&u, 8, u.len());
        assert(rest@ =~= u@.skip(8));
        Some(string_of(&before_slash(&rest)))
    } else {
        let sep = chars_of("://");
        if contains_chars(&u, &sep) {
            let parts = split_on_seq(&u, &sep);
            if parts.len() >= 2 {
                assert(views(parts@)[1] == parts@[1]@);
                Some(string_of(&before_slash(&parts[1])))
            } else {
                None
            }
        } else {
            Some(string_of(&before_slash(&u)))
        }
    }
}
}

/// The server and port to connect to for `host` ("name" or "name:port"):
/// a port that does not parse gives `default_port`.
pub open spec fn host_and_port(host: Seq<char>, default_port: u16) -> (Seq<char>, u16) {
    if has_substring(host, ":"@) {
        let parts = split_char(host, ':');
        (parts[0], match parse_u16(parts[1]) {
            Some(p) => p,
            None => default_port,
        })
    } else {
        (host, default_port)
    }
}

/// Splits `host` into server and port.
pub fn split_host_port(host: &str, default_port: u16) -> (res: (String, u16))
    ensures
        (res.0@, res.1) == host_and_port(host@, default_port),
{
    let h = chars_of(host);
    if contains_chars(&h, &chars_of(":")) {
        let parts = split_on_char(&h, ':');
        proof {
            reveal_strlit(":");
            let c = choose|i: int| #[trigger] crate::text::occurs_at(h@, ":"@, i);
            assert(h@.subrange(c, c + 1) == ":"@);
            assert(h@.subrange(c, c + 1)[0] == h@[c]);
            crate::text::lemma_split_char_pieces_two(h@, ':', c);
        }
        assert(views(parts@)[0] == parts@[0]@);
        assert(views(parts@)[1] == parts@[1]@);
        let port = match parse_u16_chars(&parts[1]) {
            Some(p) => p,
            None => default_port,
        };
        (string_of(&parts[0]), port)
    } else {
        (String::from_str(host), default_port)
    }
}

// ---------------------------------------------------------------------------
// Requests and answers
// ---------------------------------------------------------------------------

/// The method and target of a request: the first two words of its first
/// line, when that line has at least three.
pub open spec fn request_line(req: Seq<char>) -> Option<(Seq<char>, Seq<char>)> {
    match first_line(req) {
        Some(l) => {
            let w = words(l);
            if w.len() >= 3 {
                Some((w[0], w[1]))
            } else {
                None
            }
        },
        None => None,
    }
}

/// What the proxy does with a request.
#[derive(Debug, Clone)]
pub enum ProxyAction {
    /// Answer that the host is blocked.
    Block(String),
    /// Open a tunnel to the host (`CONNECT`).
    Tunnel(String),
    /// Forward the request to the host.
    Forward(String),
    /// The request could not be read.
    BadRequest,
}

/// The abstract form of a proxy action.
pub enum ProxyStep {
    Block(Seq<char>),
    Tunnel(Seq<char>),
    Forward(Seq<char>),
    BadRequest,
}

impl View for ProxyAction {
    type V = ProxyStep;

    open spec fn view(&self) -> ProxyStep {
        match self {
            ProxyAction::Block(h) => ProxyStep::Block(h@),
            ProxyAction::Tunnel(h) => ProxyStep::Tunnel(h@),
            ProxyAction::Forward(h) => ProxyStep::Forward(h@),
            ProxyAction::BadRequest => ProxyStep::BadRequest,
        }
    }
}

/// The proxy's decision on a request, given its block list: blocked hosts
/// are refused; others are
/// tunnelled for `CONNECT` and forwarded otherwise; a request without a
/// method, target and version, or whose target names no host, is bad.
pub open spec fn proxy_step(req: Seq<char>, blocked: Seq<Seq<char>>) -> ProxyStep {
    match request_line(req) {
        Some((method, target)) => match host_of(target) {
            Some(h) => if domain_blocked(h, blocked) {
                ProxyStep::Block(h)
            } else if method == "CONNECT"@ {
                ProxyStep::Tunnel(h)
            } else {
                ProxyStep::Forward(h)
            },
            None => ProxyStep::BadRequest,
        },
        None => ProxyStep::BadRequest,
    }
}

/// Reads the method and target of a request.
pub fn parse_request_line(request: &str) -> (res: Option<(String, String)>)
    ensures
        match res {
            Some((m, t)) => request_line(request@) == Some((m@, t@)),
            None => request_line(request@) is None,
        },
{
    let r = chars_of(request);
    match first_line_chars(&r) {
        Some(line) => {
            let w = words_chars(&line);
            if w.len() >= 3 {
                assert(views(w@)[0] == w@[0]@);
                assert(views(w@)[1] == w@[1]@);
                Some((string_of(&w[0]), string_of(&w[1])))
            } else {
                None
            }
        },
        None => None,
    }
}

/// Decides what to do with a client's request, refusing the hosts of the
/// block list `blocked`.
pub fn decide_request(request: &str, blocked: &Vec<String>) -> (res: ProxyAction)
    ensures
        res@ == proxy_step(request@, views_of_strings(blocked@)),
{
    match parse_request_line(request) {
        Some((method, target)) => match LocalProxyBlocker::extract_host_from_url(target.as_str()) {
            Some(host) => {
                if LocalProxyBlocker::is_domain_blocked(host.as_str(), blocked) {
                    ProxyAction::Block(host)
                } else if crate::models::chars_are(&chars_of(method.as_str()), "CONNECT") {
                    ProxyAction::Tunnel(host)
                } else {
                    ProxyAction::Forward(host)
                }
            },
            None => ProxyAction::BadRequest,
        },
        None => ProxyAction::BadRequest,
    }
}

/// The text of the page that tells a domain is blocked.
pub open spec fn blocked_message(domain: Seq<char>) -> Seq<char> {
    "Website "@ + domain + " is blocked by proxy settings."@
}

impl LocalProxyBlocker {
/// The answer for a blocked domain: `403 Forbidden`, with the length in
/// bytes of the UTF-8 message.
pub fn generate_blocked_response(domain: &str) -> (res: String)
    ensures
        res@ == "HTTP/1.1 403 Forbidden\r\nContent-Type: text/plain\r\nContent-Length: "@ + decimal(
            (vstd::utf8::encode_utf8(blocked_message(domain@)).len() as usize) as nat,
        ) + "\r\n\r\n"@ + blocked_message(domain@),
{
    let head = lit_then("Website ", &chars_of(domain));
    let msg = string_of(&concat_chars(&head, &chars_of(" is blocked by proxy settings.")));
    let m: &str = msg.as_str();
    let n = m.len();
    let len_text = decimal_string(n as u64);
    let a = lit_then(
        "HTTP/1.1 403 Forbidden\r\nContent-Type: text/plain\r\nContent-Length: ",
        &chars_of(len_text.as_str()),
    );
    let b = concat_chars(&a, &chars_of("\r\n\r\n"));
    string_of(&concat_chars(&b, &chars_of(m)))
}
}

/// The answer to a request the proxy could not read.
pub const BAD_REQUEST_RESPONSE: &'static str = "HTTP/1.1 400 Bad Request\r\nContent-Type: text/plain\r\n\r\nBad Request";

/// The answer once a tunnel is open.
pub const TUNNEL_ESTABLISHED_RESPONSE: &'static str = "HTTP/1.1 200 Connection established\r\n\r\n";

/// The answer when the server cannot be reached: for a tunnel or a
/// forwarded request, after a failure or a timeout.
pub fn connect_failure_response(tunnel: bool, timed_out: bool) -> (res: &'static str)
    ensures
        res@ == (if tunnel {
            if timed_out {
                "HTTP/1.1 504 Gateway Timeout\r\n\r\n"@
            } else {
                "HTTP/1.1 502 Bad Gateway\r\n\r\n"@
            }
        } else {
            if timed_out {
                "HTTP/1.1 504 Gateway Timeout\r\nContent-Type: text/plain\r\n\r\nGateway timeout\r\n"@
            } else {
                "HTTP/1.1 502 Bad Gateway\r\nContent-Type: text/plain\r\n\r\nConnection failed\r\n"@
            }
        }),
{
    if tunnel {
        if timed_out {
            "HTTP/1.1 504 Gateway Timeout\r\n\r\n"
        } else {
            "HTTP/1.1 502 Bad Gateway\r\n\r\n"
        }
    } else {
        if timed_out {
            "HTTP/1.1 504 Gateway Timeout\r\nContent-Type: text/plain\r\n\r\nGateway timeout\r\n"
        } else {
            "HTTP/1.1 502 Bad Gateway\r\nContent-Type: text/plain\r\n\r\nConnection failed\r\n"
        }
    }
}

/// The event logged when a tunnel closes, from whether each direction timed
/// out: its type and details.
pub fn tunnel_close_event(client_timed_out: bool, server_timed_out: bool) -> (res: (String, String))
    ensures
        !client_timed_out && !server_timed_out ==> res.0@ == "COMPLETE"@ && res.1@
            == "HTTPS tunnel closed successfully"@,
        client_timed_out || server_timed_out ==> res.0@ == "CLOSED"@ && res.1@ == "HTTPS tunnel closed with "@
            + decimal((if client_timed_out { 1nat } else { 0nat }) + (if server_timed_out { 1nat } else { 0nat }))
            + " errors"@,
{
    let errors: u64 = (if client_timed_out { 1 } else { 0 }) + (if server_timed_out { 1 } else { 0 });
    if errors == 0 {
        (String::from_str("COMPLETE"), String::from_str("HTTPS tunnel closed successfully"))
    } else {
        let head = lit_then("HTTPS tunnel closed with ", &chars_of(decimal_string(errors).as_str()));
        (String::from_str("CLOSED"), string_of(&concat_chars(&head, &chars_of(" errors"))))
    }
}

// ---------------------------------------------------------------------------
// The proxy log
// ---------------------------------------------------------------------------

/// How many entries the proxy log keeps.
pub const MAX_PROXY_LOGS: usize = 100;

/// A log line: "[time] type: target - details".
pub open spec fn log_line(time: Seq<char>, kind: Seq<char>, target: Seq<char>, details: Seq<char>) -> Seq<char> {
    "["@ + time + "] "@ + kind + ": "@ + target + " - "@ + details
}

/// Formats a log line.
pub fn log_entry(time: &str, event_type: &str, target: &str, details: &str) -> (res: String)
    ensures
        res@ == log_line(time@, event_type@, target@, details@),
{
    let a = lit_then("[", &chars_of(time));
    let b = concat_chars(&a, &chars_of("] "));
    let c = concat_chars(&b, &chars_of(event_type));
    let d = concat_chars(&c, &chars_of(": "));
    let e = concat_chars(&d, &chars_of(target));
    let f = concat_chars(&e, &chars_of(" - "));
    let g = concat_chars(&f, &chars_of(details));
    string_of(&g)
}

/// The local blocking proxy, as far as it keeps state: the most recent lines
/// of its log, oldest first (its view), the domains it refuses and the port
/// it listens on.
pub struct LocalProxyBlocker {
    proxy_logs: Vec<String>,
    blocked_domains: Vec<String>,
    port: u16,
}

impl View for LocalProxyBlocker {
    type V = Seq<Seq<char>>;

    closed spec fn view(&self) -> Seq<Seq<char>> {
        views_of_strings(self.proxy_logs@)
    }
}

/// The log after appending `line`: the oldest line goes once there are more
/// than a hundred.
pub open spec fn log_after(log: Seq<Seq<char>>, line: Seq<char>) -> Seq<Seq<char>> {
    let l = log.push(line);
    if l.len() > MAX_PROXY_LOGS {
        l.drop_first()
    } else {
        l
    }
}

impl LocalProxyBlocker {
    /// The number of log lines never exceeds the limit.
    #[verifier::type_invariant]
    closed spec fn bounded(&self) -> bool {
        self.proxy_logs@.len() <= MAX_PROXY_LOGS
    }

    /// The domains the proxy refuses.
    pub closed spec fn blocked(&self) -> Seq<Seq<char>> {
        views_of_strings(self.blocked_domains@)
    }

    /// The port the proxy listens on.
    pub closed spec fn port(&self) -> u16 {
        self.port
    }

    /// A proxy with an empty log, listening on the default port and refusing
    /// the built-in domains until it is given the user's list.
    pub fn new() -> (res: Self)
        ensures
            res@ == Seq::<Seq<char>>::empty(),
            res.blocked() == blocked_domain_list(),
            res.port() == PROXY_PORT,
    {
        let r = LocalProxyBlocker { proxy_logs: Vec::new(), blocked_domains: default_blocked_domains(), port: PROXY_PORT };
        assert(r@ =~= Seq::<Seq<char>>::empty());
        r
    }

    /// Records an event at `time` ("HH:MM:SS"): appends its log line,
    /// dropping the oldest beyond a hundred, and returns the line.
    pub fn log_event(&mut self, time: &str, event_type: &str, target: &str, details: &str) -> (res: String)
        ensures
            res@ == log_line(time@, event_type@, target@, details@),
            final(self).blocked() == old(self).blocked(),
            final(self).port() == old(self).port(),
            final(self)@ == log_after(old(self)@, res@),
            final(self)@.len() <= MAX_PROXY_LOGS,
    {
        proof {
            use_type_invariant(&*self);
        }
        let line = log_entry(time, event_type, target, details);
        let ghost before = self@;
        let mut lines = Vec::new();
        std::mem::swap(&mut lines, &mut self.proxy_logs);
        lines.push(line.clone());
        if lines.len() > MAX_PROXY_LOGS {
            lines.remove(0);
        }
        assert(views_of_strings(lines@) =~= log_after(before, line@));
        self.proxy_logs = lines;
        line
    }

    /// A copy of the log lines, oldest first.
    pub fn get_proxy_logs(&self) -> (res: Vec<String>)
        ensures
            views_of_strings(res@) == self@,
    {
        let mut res: Vec<String> = Vec::new();
        let mut i: usize = 0;
        while i < self.proxy_logs.len()
            invariant
                i <= self.proxy_logs@.len(),
                res@.len() == i,
                views_of_strings(res@) == self@.take(i as int),
            decreases self.proxy_logs@.len() - i,
        {
            res.push(self.proxy_logs[i].clone());
            assert(views_of_strings(res@)[i as int] == self@[i as int]);
            i = i + 1;
            assert(views_of_strings(res@) =~= self@.take(i as int));
        }
        assert(self@.take(i as int) =~= self@);
        res
    }
}

// ---------------------------------------------------------------------------
// System proxy settings
// ---------------------------------------------------------------------------

/// Whether `networksetup`'s report shows the proxy enabled on `port`.
pub open spec fn mac_proxy_enabled(out: Seq<char>, port: u16) -> bool {
    has_substring(out, "Enabled: Yes"@) && has_substring(out, "Server: 127.0.0.1"@)
        && has_substring(out, "Port: "@ + decimal(port as nat))
}

/// Reads `networksetup -getwebproxy` (or `-getsecurewebproxy`) output.
pub fn mac_proxy_output_enabled(output: &str, port: u16) -> (res: bool)
    ensures
        res == mac_proxy_enabled(output@, port),
{
    let o = chars_of(output);
    let port = lit_then("Port: ", &chars_of(decimal_string(port as u64).as_str()));
    contains_chars(&o, &chars_of("Enabled: Yes")) && contains_chars(&o, &chars_of("Server: 127.0.0.1"))
        && contains_chars(&o, &port)
}

/// Reads `netsh winhttp show proxy` output: whether it names the proxy on
/// `port`.
pub fn windows_proxy_output_enabled(output: &str, port: u16) -> (res: bool)
    ensures
        res == has_substring(output@, "127.0.0.1:"@ + decimal(port as nat)),
{
    let o = chars_of(output);
    let p = lit_then("127.0.0.1:", &chars_of(decimal_string(port as u64).as_str()));
    contains_chars(&o, &p)
}

/// The arguments of `networksetup` that point the (secure, when `secure`)
/// web proxy of Wi-Fi at the proxy on `port`.
pub fn mac_enable_proxy_args(secure: bool, port: u16) -> (res: Vec<String>)
    ensures
        views_of_strings(res@) == seq![
            if secure { "-setsecurewebproxy"@ } else { "-setwebproxy"@ },
            "Wi-Fi"@,
            "127.0.0.1"@,
            decimal(port as nat),
        ],
{
    let mut v: Vec<String> = Vec::new();
    v.push(String::from_str(if secure { "-setsecurewebproxy" } else { "-setwebproxy" }));
    v.push(String::from_str("Wi-Fi"));
    v.push(String::from_str("127.0.0.1"));
    v.push(decimal_string(port as u64));
    assert(views_of_strings(v@) =~= seq![
        if secure { "-setsecurewebproxy"@ } else { "-setwebproxy"@ },
        "Wi-Fi"@,
        "127.0.0.1"@,
        decimal(port as nat),
    ]);
    v
}

/// The `proxy-server` argument of `netsh winhttp set proxy` for the proxy
/// on `port`.
pub fn windows_proxy_server_arg(port: u16) -> (res: String)
    ensures
        res@ == "proxy-server=\"http=127.0.0.1:"@ + decimal(port as nat) + ";https=127.0.0.1:"@
            + decimal(port as nat) + "\""@,
{
    let port = chars_of(decimal_string(port as u64).as_str());
    let a = lit_then("proxy-server=\"http=127.0.0.1:", &port);
    let b = concat_chars(&a, &chars_of(";https=127.0.0.1:"));
    let c = concat_chars(&b, &port);
    string_of(&concat_chars(&c, &chars_of("\"")))
}

/// The port stored in the settings, or the default one when there is none
/// or it does not parse.
pub fn proxy_port_from_setting(value: Option<&str>) -> (res: u16)
    ensures
        res == match value {
            Some(v) => match parse_u16(v@) {
                Some(p) => p,
                None => PROXY_PORT,
            },
            None => PROXY_PORT,
        },
{
    match value {
        Some(v) => match parse_u16_chars(&chars_of(v)) {
            Some(p) => p,
            None => PROXY_PORT,
        },
        None => PROXY_PORT,
    }
}


// ---------------------------------------------------------------------------
// What to block
// ---------------------------------------------------------------------------

/// The addresses blocked when the mappings name none of a distracting
/// category.
pub open spec fn fallback_block_list() -> Seq<Seq<char>> {
    seq![
        "facebook.com"@,
        "twitter.com"@,
        "instagram.com"@,
        "youtube.com"@,
        "tiktok.com"@,
        "reddit.com"@,
        "linkedin.com"@,
    ]
}

/// Whether a category is distracting: social or entertainment.
pub open spec fn is_distracting(category_id: Seq<char>) -> bool {
    category_id == "social"@ || category_id == "entertainment"@
}

/// The patterns of the mappings to distracting categories, in order.
pub open spec fn distracting_patterns(maps: Seq<UrlMapping>) -> Seq<Seq<char>>
    decreases maps.len(),
{
    if maps.len() == 0 {
        Seq::empty()
    } else {
        let p = distracting_patterns(maps.drop_last());
        if is_distracting(maps.last().category_id@) {
            p.push(maps.last().url_pattern@)
        } else {
            p
        }
    }
}

/// The addresses to block while focusing: the patterns of distracting
/// mappings, or the fallback list when there are none.
pub fn urls_to_block(mappings: &Vec<UrlMapping>) -> (res: Vec<String>)
    ensures
        views_of_strings(res@) == (if distracting_patterns(mappings@).len() == 0 {
            fallback_block_list()
        } else {
            distracting_patterns(mappings@)
        }),
{
    let mut res: Vec<String> = Vec::new();
    let mut i: usize = 0;
    assert(mappings@.take(0) =~= Seq::<UrlMapping>::empty());
    while i < mappings.len()
        invariant
            i <= mappings@.len(),
            views_of_strings(res@) == distracting_patterns(mappings@.take(i as int)),
        decreases mappings@.len() - i,
    {
        assert(mappings@.take(i + 1).drop_last() =~= mappings@.take(i as int));
        let m = &mappings[i];
        let c = chars_of(m.category_id.as_str());
        if chars_are(&c, "social") || chars_are(&c, "entertainment") {
            let ghost before = views_of_strings(res@);
            res.push(m.url_pattern.clone());
            assert(views_of_strings(res@) =~= before.push(m.url_pattern@));
        }
        i = i + 1;
    }
    assert(mappings@.take(i as int) =~= mappings@);
    if res.len() == 0 {
        let mut f: Vec<String> = Vec::new();
        f.push(String::from_str("facebook.com"));
        f.push(String::from_str("twitter.com"));
        f.push(String::from_str("instagram.com"));
        f.push(String::from_str("youtube.com"));
        f.push(String::from_str("tiktok.com"));
        f.push(String::from_str("reddit.com"));
        f.push(String::from_str("linkedin.com"));
        assert(views_of_strings(f@) =~= fallback_block_list());
        return f;
    }
    res
}

/// What a change of focus mode or of the website-blocking preference does
/// to the website blocker: `Some(true)` starts it, `Some(false)` stops it,
/// `None` leaves it. It acts only while focus mode is on (or being turned
/// on or off) and website blocking is wanted.
pub fn website_blocker_change(focus_mode_on: bool, blocking_wanted: bool, preference_changed: bool) -> (res:
    Option<bool>)
    ensures
        res == (if preference_changed {
            if focus_mode_on {
                Some(blocking_wanted)
            } else {
                None
            }
        } else if blocking_wanted {
            Some(focus_mode_on)
        } else {
            None
        }),
{
    if preference_changed {
        if focus_mode_on {
            Some(blocking_wanted)
        } else {
            None
        }
    } else if blocking_wanted {
        Some(focus_mode_on)
    } else {
        None
    }
}


/// The manual proxy set-up steps for macOS and for Windows, ending with the
/// address to enter.
pub fn proxy_setup_instructions(address: &str, port: u16) -> (res: (Vec<String>, Vec<String>))
    ensures
        views_of_strings(res.0@) == seq![
            "1. Go to System Preferences > Network"@,
            "2. Select your active network connection"@,
            "3. Click 'Advanced...' > 'Proxies'"@,
            "4. Check 'Web Proxy (HTTP)' and 'Secure Web Proxy (HTTPS)'"@,
            "5. Enter "@ + address@ + ":"@ + decimal(port as nat),
        ],
        views_of_strings(res.1@) == seq![
            "1. Go to Settings > Network & Internet > Proxy"@,
            "2. Enable 'Use a proxy server'"@,
            "3. Enter "@ + address@ + ":"@ + decimal(port as nat),
        ],
{
    let target = concat_chars(
        &concat_chars(&chars_of(address), &chars_of(":")),
        &chars_of(decimal_string(port as u64).as_str()),
    );
    let mut mac: Vec<String> = Vec::new();
    mac.push(String::from_str("1. Go to System Preferences > Network"));
    mac.push(String::from_str("2. Select your active network connection"));
    mac.push(String::from_str("3. Click 'Advanced...' > 'Proxies'"));
    mac.push(String::from_str("4. Check 'Web Proxy (HTTP)' and 'Secure Web Proxy (HTTPS)'"));
    mac.push(string_of(&lit_then("5. Enter ", &target)));
    let mut win: Vec<String> = Vec::new();
    win.push(String::from_str("1. Go to Settings > Network & Internet > Proxy"));
    win.push(String::from_str("2. Enable 'Use a proxy server'"));
    win.push(string_of(&lit_then("3. Enter ", &target)));
    assert("5. Enter "@ + target@ =~= "5. Enter "@ + address@ + ":"@ + decimal(port as nat));
    assert("3. Enter "@ + target@ =~= "3. Enter "@ + address@ + ":"@ + decimal(port as nat));
    assert(views_of_strings(mac@) =~= seq![
        "1. Go to System Preferences > Network"@,
        "2. Select your active network connection"@,
        "3. Click 'Advanced...' > 'Proxies'"@,
        "4. Check 'Web Proxy (HTTP)' and 'Secure Web Proxy (HTTPS)'"@,
        "5. Enter "@ + address@ + ":"@ + decimal(port as nat),
    ]);
    assert(views_of_strings(win@) =~= seq![
        "1. Go to Settings > Network & Internet > Proxy"@,
        "2. Enable 'Use a proxy server'"@,
        "3. Enter "@ + address@ + ":"@ + decimal(port as nat),
    ]);
    (mac, win)
}

} // verus!
