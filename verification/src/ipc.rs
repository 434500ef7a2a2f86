//! The service side of the user-interface bridge: what it reports about
//! connected clients, how it reads a join request, which addresses the
//! player's subnet scan probes, and how its local web server routes a
//! request to an embedded asset.

use vstd::prelude::*;

use crate::addr::{ipv4_text, ipv4_to_text};
use crate::capture::{backend_named, CaptureBackend};
use crate::text::{
    all_digits, chars_of, contains_text, decimal, decimal_string_u64, is_white_space, opt_chars,
    lemma_split_on_len, same_text, seq_contains, split_bounds, split_on, white_space,
};

verus! {

/// A client connected to the host's stream.
#[derive(Debug, Clone)]
pub struct ActiveClientInfo {
    pub client_id: String,
    pub addr: String,
    pub display_name: String,
}

/// Whether the host text of a join request is a WAN pairing code, to be
/// resolved through the signalling server: exactly six ASCII digits.
pub fn is_wan_code(host: &str) -> (r: bool)
    ensures
        r == (host@.len() == 6 && all_digits(host@)),
{
    let cs = chars_of(host);
    if cs.len() != 6 {
        return false;
    }
    let mut i: usize = 0;
    while i < 6
        invariant
            cs@ == host@,
            cs.len() == 6,
            i <= 6,
            forall|j: int| 0 <= j < i ==> '0' <= #[trigger] host@[j] <= '9',
        decreases 6 - i,
    {
        if cs[i] < '0' || cs[i] > '9' {
            return false;
        }
        i = i + 1;
    }
    true
}

/// Whether a connection's first bytes ask for a WebSocket upgrade.
pub fn is_websocket_upgrade(head: &str) -> (r: bool)
    ensures
        r == (seq_contains(head@, "Upgrade: websocket"@) || (seq_contains(head@, "upgrade:"@)
            && seq_contains(head@, "websocket"@))),
{
    contains_text(head, "Upgrade: websocket") || (contains_text(head, "upgrade:") && contains_text(
        head,
        "websocket",
    ))
}

/// Index of the first `c` in `s`.
pub open spec fn first_index_of(s: Seq<char>, c: char) -> Option<int>
    decreases s.len(),
{
    if s.len() == 0 {
        None
    } else {
        match first_index_of(s.drop_last(), c) {
            Some(i) => Some(i),
            None => if s.last() == c {
                Some(s.len() - 1)
            } else {
                None
            },
        }
    }
}

/// Number of leading `c` in `s`.
pub open spec fn leading_count(s: Seq<char>, c: char) -> nat
    decreases s.len(),
{
    if s.len() > 0 && s[0] == c {
        1 + leading_count(s.drop_first(), c)
    } else {
        0
    }
}

/// The asset a request path names: the query is dropped, `/` and the empty
/// path name `index.html`, other paths lose their leading slashes.
pub open spec fn asset_path_of(path: Seq<char>) -> Seq<char> {
    let p = match first_index_of(path, '?') {
        Some(i) => path.subrange(0, i),
        None => path,
    };
    if p == "/"@ || p.len() == 0 {
        "index.html"@
    } else {
        p.subrange(leading_count(p, '/') as int, p.len() as int)
    }
}

proof fn lemma_first_index_step(s: Seq<char>, c: char, i: int)
    requires
        0 <= i < s.len(),
    ensures
        first_index_of(s.subrange(0, i + 1), c) == match first_index_of(s.subrange(0, i), c) {
            Some(k) => Some(k),
            None => if s[i] == c {
                Some(i)
            } else {
                None
            },
        },
{
    assert(s.subrange(0, i + 1).drop_last() =~= s.subrange(0, i));
}

proof fn lemma_first_index_extends(s: Seq<char>, c: char, k: int)
    requires
        0 <= k <= s.len(),
        first_index_of(s.subrange(0, k), c) is Some,
    ensures
        first_index_of(s, c) == first_index_of(s.subrange(0, k), c),
    decreases s.len() - k,
{
    if k < s.len() {
        lemma_first_index_step(s, c, k);
        lemma_first_index_extends(s, c, k + 1);
    } else {
        assert(s.subrange(0, k) =~= s);
    }
}

proof fn lemma_leading_count_prefix(s: Seq<char>, c: char, n: int)
    requires
        0 <= n <= s.len(),
        forall|j: int| 0 <= j < n ==> s[j] == c,
        n == s.len() || s[n] != c,
    ensures
        leading_count(s, c) == n,
    decreases n,
{
    if n > 0 {
        lemma_leading_count_prefix(s.drop_first(), c, n - 1);
    }
}

/// The embedded asset a request path names.
pub fn asset_path(path: &str) -> (r: String)
    ensures
        r@ == asset_path_of(path@),
{
    let cs = chars_of(path);
    let n = cs.len();
    let mut q: usize = 0;
    while q < n
        invariant
            cs@ == path@,
            n == cs.len(),
            q <= n,
            first_index_of(path@.subrange(0, q as int), '?') is None,
        ensures
            q <= n,
            q < n ==> first_index_of(path@, '?') == Some(q as int),
            q == n ==> first_index_of(path@.subrange(0, q as int), '?') is None,
        decreases n - q,
    {
        proof {
            lemma_first_index_step(path@, '?', q as int);
        }
        if cs[q] == '?' {
            proof {
                lemma_first_index_extends(path@, '?', q + 1);
            }
            break;
        }
        q = q + 1;
    }
    proof {
        if q == n {
            assert(path@.subrange(0, n as int) =~= path@);
        }
    }
    let p = path.substring_char(0, q);
    assert(p@ == (match first_index_of(path@, '?') {
        Some(i) => path@.subrange(0, i),
        None => path@,
    }));
    if same_text(p, "/") || q == 0 {
        proof {
            reveal_strlit("index.html");
        }
        return String::from_str("index.html");
    }
    let mut k: usize = 0;
    while k < q && cs[k] == '/'
        invariant
            cs@ == path@,
            q <= cs.len(),
            p@ == path@.subrange(0, q as int),
            k <= q,
            forall|j: int| 0 <= j < k ==> p@[j] == '/',
        decreases q - k,
    {
        k = k + 1;
    }
    proof {
        lemma_leading_count_prefix(p@, '/', k as int);
    }
    String::from_str(p.substring_char(k, q))
}

/// The extension a content type is chosen by: the text after the last `.`,
/// or the whole name when it has none.
pub open spec fn extension_of(name: Seq<char>) -> Seq<char>
    decreases name.len(),
{
    if name.len() == 0 {
        name
    } else if name.last() == '.' {
        Seq::empty()
    } else {
        extension_of(name.drop_last()).push(name.last())
    }
}

/// The `Content-Type` served for an asset, by its extension.
pub open spec fn content_type_of(name: Seq<char>) -> Seq<char> {
    let ext = extension_of(name);
    if ext == "html"@ {
        "text/html"@
    } else if ext == "js"@ {
        "application/javascript"@
    } else if ext == "css"@ {
        "text/css"@
    } else if ext == "png"@ {
        "image/png"@
    } else if ext == "ico"@ {
        "image/x-icon"@
    } else if ext == "svg"@ {
        "image/svg+xml"@
    } else {
        "application/octet-stream"@
    }
}

/// The `Content-Type` the web server sends for an asset.
pub fn content_type(name: &str) -> (r: &'static str)
    ensures
        r@ == content_type_of(name@),
{
    let cs = chars_of(name);
    let n = cs.len();
    let mut i: usize = n;
    assert(name@.subrange(0, n as int) =~= name@);
    assert(name@.subrange(n as int, n as int) =~= Seq::<char>::empty());
    while i > 0 && cs[i - 1] != '.'
        invariant
            cs@ == name@,
            n == cs.len(),
            i <= n,
            forall|j: int| i <= j < n ==> name@[j] != '.',
            extension_of(name@) == extension_of(name@.subrange(0, i as int)) + name@.subrange(
                i as int,
                n as int,
            ),
        decreases i,
    {
        proof {
            let pre = name@.subrange(0, i as int);
            assert(pre.drop_last() =~= name@.subrange(0, i - 1));
            assert(name@.subrange(i - 1, n as int) =~= seq![name@[i - 1]] + name@.subrange(
                i as int,
                n as int,
            ));
            assert(extension_of(name@.subrange(0, i - 1)).push(name@[i - 1]) + name@.subrange(
                i as int,
                n as int,
            ) =~= extension_of(name@.subrange(0, i - 1)) + name@.subrange(i - 1, n as int));
        }
        i = i - 1;
    }
    proof {
        if i > 0 {
            let pre = name@.subrange(0, i as int);
            assert(pre.last() == '.');
        }
        assert(extension_of(name@) =~= name@.subrange(i as int, n as int));
    }
    let ext = name.substring_char(i, n);
    if same_text(ext, "html") {
        "text/html"
    } else if same_text(ext, "js") {
        "application/javascript"
    } else if same_text(ext, "css") {
        "text/css"
    } else if same_text(ext, "png") {
        "image/png"
    } else if same_text(ext, "ico") {
        "image/x-icon"
    } else if same_text(ext, "svg") {
        "image/svg+xml"
    } else {
        "application/octet-stream"
    }
}

/// The white-space separated words of `s`, as `str::split_whitespace`
/// yields them.
pub open spec fn words_of(s: Seq<char>) -> Seq<Seq<char>>
    decreases s.len(),
{
    if s.len() == 0 {
        Seq::empty()
    } else {
        let p = words_of(s.drop_last());
        let c = s.last();
        if is_white_space(c) {
            p
        } else if s.len() >= 2 && !is_white_space(s[s.len() - 2]) {
            p.update(p.len() - 1, p.last().push(c))
        } else {
            p.push(seq![c])
        }
    }
}

fn word_bounds(v: &Vec<char>, lo: usize, hi: usize) -> (r: Vec<(usize, usize)>)
    requires
        lo <= hi <= v.len(),
    ensures
        r.len() == words_of(v@.subrange(lo as int, hi as int)).len(),
        forall|k: int|
            0 <= k < r.len() ==> lo <= (#[trigger] r@[k]).0 <= r@[k].1 <= hi && v@.subrange(
                r@[k].0 as int,
                r@[k].1 as int,
            ) == words_of(v@.subrange(lo as int, hi as int))[k],
{
    let mut r: Vec<(usize, usize)> = Vec::new();
    let mut i: usize = lo;
    assert(v@.subrange(lo as int, lo as int) =~= Seq::<char>::empty());
    while i < hi
        invariant
            lo <= i <= hi <= v.len(),
            words_of(v@.subrange(lo as int, i as int)) =~= r@.map_values(
                |b: (usize, usize)| v@.subrange(b.0 as int, b.1 as int),
            ),
            forall|k: int| 0 <= k < r.len() ==> lo <= (#[trigger] r@[k]).0 <= r@[k].1 <= i,
            (i > lo && !is_white_space(v@[i - 1])) ==> r.len() > 0 && r@[r.len() - 1].1 == i,
        decreases hi - i,
    {
        let ghost sub = v@.subrange(lo as int, i + 1);
        assert(sub.drop_last() =~= v@.subrange(lo as int, i as int));
        assert(sub.last() == v@[i as int]);
        let c = v[i];
        if white_space(c) {
        } else if i > lo && !white_space(v[i - 1]) {
            assert(sub[sub.len() - 2] == v@[i - 1]);
            let last = r.len() - 1;
            let (a, _) = r[last];
            r.set(last, (a, i + 1));
            assert(v@.subrange(a as int, i as int).push(c) =~= v@.subrange(a as int, i + 1));
        } else {
            if i > lo {
                assert(sub[sub.len() - 2] == v@[i - 1]);
            }
            r.push((i, i + 1));
            assert(v@.subrange(i as int, i + 1) =~= seq![c]);
        }
        i = i + 1;
    }
    r
}

/// What the web server does with a request: nothing when its first line
/// has fewer than two words, `405 Method Not Allowed` when the method is not
/// `GET`, else serve the asset its path names.
pub enum RequestTarget {
    Ignore,
    MethodNotAllowed,
    Asset(String),
}

/// `RequestTarget` with the asset path as a character sequence.
pub enum RequestTargetView {
    Ignore,
    MethodNotAllowed,
    Asset(Seq<char>),
}

impl View for RequestTarget {
    type V = RequestTargetView;

    open spec fn view(&self) -> RequestTargetView {
        match self {
            RequestTarget::Ignore => RequestTargetView::Ignore,
            RequestTarget::MethodNotAllowed => RequestTargetView::MethodNotAllowed,
            RequestTarget::Asset(p) => RequestTargetView::Asset(p@),
        }
    }
}

/// What a request asks of the web server, by the words of its first line.
pub open spec fn request_target_of(request: Seq<char>) -> RequestTargetView {
    let w = words_of(split_on(request, '\n')[0]);
    if w.len() < 2 {
        RequestTargetView::Ignore
    } else if w[0] != "GET"@ {
        RequestTargetView::MethodNotAllowed
    } else {
        RequestTargetView::Asset(asset_path_of(w[1]))
    }
}

/// Reads what a request asks of the web server.
pub fn request_target(request: &str) -> (r: RequestTarget)
    ensures
        r@ == request_target_of(request@),
{
    let v = chars_of(request);
    assert(v@.subrange(0, v.len() as int) =~= request@);
    let lines = split_bounds(&v, 0, v.len(), '\n');
    proof {
        lemma_split_on_len(request@, '\n');
    }
    let (lo, hi) = lines[0];
    let w = word_bounds(&v, lo, hi);
    if w.len() < 2 {
        return RequestTarget::Ignore;
    }
    let method = request.substring_char(w[0].0, w[0].1);
    if !same_text(method, "GET") {
        return RequestTarget::MethodNotAllowed;
    }
    let path = request.substring_char(w[1].0, w[1].1);
    RequestTarget::Asset(asset_path(path))
}

/// The asset the web server sends for a requested one: itself when it is
/// embedded, else the index page when that is, else none (`404`).
pub fn served_asset(asset: &str, asset_found: bool, index_found: bool) -> (r: Option<String>)
    ensures
        asset_found ==> (r matches Some(s) && s@ == asset@),
        !asset_found && index_found ==> (r matches Some(s) && s@ == "index.html"@),
        !asset_found && !index_found ==> r is None,
{
    if asset_found {
        Some(String::from_str(asset))
    } else if index_found {
        Some(String::from_str("index.html"))
    } else {
        None
    }
}

/// The head of a `200 OK` response carrying `length` bytes of `content_type`.
pub fn ok_response_head(content_type: &str, length: u64) -> (r: String)
    ensures
        r@ == "HTTP/1.1 200 OK\r\nContent-Type: "@ + content_type@ + "\r\nContent-Length: "@
            + decimal(length as nat) + "\r\nAccess-Control-Allow-Origin: *\r\n\r\n"@,
{
    let mut r = String::from_str("HTTP/1.1 200 OK\r\nContent-Type: ");
    r.append(content_type);
    r.append("\r\nContent-Length: ");
    let n = decimal_string_u64(length);
    r.append(n.as_str());
    r.append("\r\nAccess-Control-Allow-Origin: *\r\n\r\n");
    r
}

/// The response to a request whose method is not `GET`.
pub const METHOD_NOT_ALLOWED_RESPONSE: &'static str = "HTTP/1.1 405 Method Not Allowed\r\nContent-Length: 0\r\n\r\n";

/// The response when neither the asset nor the index page is embedded.
pub const NOT_FOUND_RESPONSE: &'static str = "HTTP/1.1 404 Not Found\r\nContent-Length: 0\r\n\r\n";

/// An IPv4 address by its four octets.
#[derive(Debug, Clone, Copy, PartialEq, Eq, Structural)]
pub struct Ipv4 {
    pub a: u8,
    pub b: u8,
    pub c: u8,
    pub d: u8,
}

/// Whether a local address can anchor a subnet scan: not loopback
/// (127.x.x.x) and not link-local (169.254.x.x).
pub fn usable_local_ipv4(ip: Ipv4) -> (r: bool)
    ensures
        r == (ip.a != 127 && !(ip.a == 169 && ip.b == 254)),
{
    ip.a != 127 && !(ip.a == 169 && ip.b == 254)
}

/// Whether two addresses share their /24 network.
pub open spec fn same_subnet(x: Ipv4, y: Ipv4) -> bool {
    x.a == y.a && x.b == y.b && x.c == y.c
}

/// Whether `t` is probed by a scan from the local addresses `local`: a host
/// address (1 to 254) in the /24 of a local address, and not local itself.
pub open spec fn is_scan_target(local: Seq<Ipv4>, t: Ipv4) -> bool {
    &&& 1 <= t.d <= 254
    &&& !local.contains(t)
    &&& exists|j: int| 0 <= j < local.len() && same_subnet(#[trigger] local[j], t)
}

/// Whether `x` is probed before `y`: within one /24 by host number, else the
/// /24 of `x` belongs to a local address listed before any in that of `y`.
pub open spec fn probed_before(local: Seq<Ipv4>, x: Ipv4, y: Ipv4) -> bool {
    if same_subnet(x, y) {
        x.d < y.d
    } else {
        exists|j: int|
            0 <= j < local.len() && same_subnet(#[trigger] local[j], x) && forall|k: int|
                0 <= k <= j ==> !same_subnet(#[trigger] local[k], y)
    }
}

/// The scan targets found before position (`i`, host `k`) of the scan.
pub open spec fn scanned_upto(local: Seq<Ipv4>, i: int, k: int, t: Ipv4) -> bool {
    &&& 1 <= t.d <= 254
    &&& !local.contains(t)
    &&& ((exists|j: int| 0 <= j < i && same_subnet(#[trigger] local[j], t)) || (i < local.len()
        && same_subnet(local[i], t) && t.d < k))
}

fn contains_ip(v: &Vec<Ipv4>, t: Ipv4) -> (r: bool)
    ensures
        r == v@.contains(t),
{
    let mut i: usize = 0;
    while i < v.len()
        invariant
            i <= v.len(),
            forall|j: int| 0 <= j < i ==> v@[j] != t,
        decreases v.len() - i,
    {
        if v[i] == t {
            return true;
        }
        i = i + 1;
    }
    false
}

/// The addresses the player probes for hosts: for each local address in
/// turn, hosts 1 to 254 of its /24, skipping local addresses and addresses
/// already listed.
pub fn scan_targets(local: &Vec<Ipv4>) -> (r: Vec<Ipv4>)
    ensures
        forall|t: Ipv4| r@.contains(t) <==> is_scan_target(local@, t),
        forall|x: int, y: int|
            0 <= x < y < r@.len() ==> probed_before(local@, #[trigger] r@[x], #[trigger] r@[y]),
{
    let mut r: Vec<Ipv4> = Vec::new();
    let mut i: usize = 0;
    while i < local.len()
        invariant
            i <= local.len(),
            forall|t: Ipv4| r@.contains(t) <==> scanned_upto(local@, i as int, 0, t),
            forall|x: int, y: int|
                0 <= x < y < r@.len() ==> probed_before(local@, #[trigger] r@[x], #[trigger] r@[y]),
        decreases local.len() - i,
    {
        let base = local[i];
        let mut k: u8 = 1;
        assert forall|t: Ipv4| scanned_upto(local@, i as int, 1, t) implies r@.contains(t) by {
            assert(scanned_upto(local@, i as int, 0, t));
        }
        while k < 255
            invariant
                i < local.len(),
                base == local@[i as int],
                1 <= k <= 255,
                forall|t: Ipv4| r@.contains(t) <==> scanned_upto(local@, i as int, k as int, t),
                forall|x: int, y: int|
                    0 <= x < y < r@.len() ==> probed_before(
                        local@,
                        #[trigger] r@[x],
                        #[trigger] r@[y],
                    ),
            decreases 255 - k,
        {
            let t = Ipv4 { a: base.a, b: base.b, c: base.c, d: k };
            let ghost before = r@;
            if !contains_ip(local, t) && !contains_ip(&r, t) {
                proof {
                    // No earlier local address shares t's /24, or t would
                    // already be listed.
                    assert forall|j: int| 0 <= j < i implies !same_subnet(
                        #[trigger] local@[j],
                        t,
                    ) by {
                        if same_subnet(local@[j], t) {
                            assert(scanned_upto(local@, i as int, k as int, t));
                        }
                    }
                }
                r.push(t);
                proof {
                    assert forall|x: int, y: int|
                        0 <= x < y < r@.len() implies probed_before(
                        local@,
                        #[trigger] r@[x],
                        #[trigger] r@[y],
                    ) by {
                        if y < before.len() {
                            assert(r@[x] == before[x] && r@[y] == before[y]);
                        } else {
                            let u = before[x];
                            assert(before.contains(u));
                            assert(scanned_upto(local@, i as int, k as int, u));
                            if !same_subnet(u, t) && !same_subnet(local@[i as int], u) {
                                let j0 = choose|j0: int|
                                    0 <= j0 < i && same_subnet(#[trigger] local@[j0], u);
                                assert forall|m: int| 0 <= m <= j0 implies !same_subnet(
                                    #[trigger] local@[m],
                                    t,
                                ) by {}
                            }
                        }
                    }
                    assert forall|t2: Ipv4| r@.contains(t2) <==> scanned_upto(
                        local@,
                        i as int,
                        k + 1,
                        t2,
                    ) by {
                        if r@.contains(t2) && t2 != t {
                            let m = choose|m: int| 0 <= m < r@.len() && r@[m] == t2;
                            assert(before[m] == t2);
                            assert(before.contains(t2));
                        }
                        if scanned_upto(local@, i as int, k + 1, t2) && t2 != t {
                            assert(scanned_upto(local@, i as int, k as int, t2));
                            assert(before.contains(t2));
                            let m = choose|m: int| 0 <= m < before.len() && before[m] == t2;
                            assert(r@[m] == t2);
                        }
                        if t2 == t {
                            assert(r@[before.len() as int] == t);
                        }
                    }
                }
            } else {
                proof {
                    assert forall|t2: Ipv4| r@.contains(t2) <==> scanned_upto(
                        local@,
                        i as int,
                        k + 1,
                        t2,
                    ) by {
                        if scanned_upto(local@, i as int, k + 1, t2) && t2 == t && !local@.contains(
                            t,
                        ) {
                            assert(r@.contains(t));
                        }
                    }
                }
            }
            k = k + 1;
        }
        proof {
            assert forall|t: Ipv4| r@.contains(t) <==> scanned_upto(local@, i + 1, 0, t) by {
                if scanned_upto(local@, i as int, 255, t) && same_subnet(local@[i as int], t) {
                    assert(0 <= i < i + 1 && same_subnet(local@[i as int], t));
                }
                if scanned_upto(local@, i + 1, 0, t) {
                    let j = choose|j: int| 0 <= j < i + 1 && same_subnet(#[trigger] local@[j], t);
                    if j == i {
                        assert(t.d < 255);
                    }
                }
            }
        }
        i = i + 1;
    }
    assert forall|t: Ipv4| r@.contains(t) <==> is_scan_target(local@, t) by {
        assert(scanned_upto(local@, local.len() as int, 0, t) == is_scan_target(local@, t));
    }
    r
}

/// A host found on the network.
#[derive(Debug, Clone)]
pub struct DiscoveredHost {
    pub name: String,
    pub address: String,
    pub port: u16,
    pub version: Option<String>,
    pub mac: Option<String>,
    pub tls: Option<bool>,
}

/// Whether two findings name the same endpoint: one address and port.
pub open spec fn same_endpoint(x: DiscoveredHost, y: DiscoveredHost) -> bool {
    x.address@ == y.address@ && x.port == y.port
}

/// Whether `hosts` already lists the endpoint of `h`.
pub open spec fn lists_endpoint(hosts: Seq<DiscoveredHost>, h: DiscoveredHost) -> bool {
    exists|i: int| 0 <= i < hosts.len() && same_endpoint(#[trigger] hosts[i], h)
}

/// `known` followed by each of `found`, in order, whose endpoint is not
/// listed yet.
pub open spec fn merged_hosts(known: Seq<DiscoveredHost>, found: Seq<DiscoveredHost>) -> Seq<
    DiscoveredHost,
>
    decreases found.len(),
{
    if found.len() == 0 {
        known
    } else {
        let prev = merged_hosts(known, found.drop_last());
        if lists_endpoint(prev, found.last()) {
            prev
        } else {
            prev.push(found.last())
        }
    }
}

fn lists_endpoint_exec(hosts: &Vec<DiscoveredHost>, h: &DiscoveredHost) -> (r: bool)
    ensures
        r == lists_endpoint(hosts@, *h),
{
    let mut i: usize = 0;
    while i < hosts.len()
        invariant
            i <= hosts.len(),
            forall|j: int| 0 <= j < i ==> !same_endpoint(#[trigger] hosts@[j], *h),
        decreases hosts.len() - i,
    {
        if hosts[i].port == h.port && same_text(hosts[i].address.as_str(), h.address.as_str()) {
            assert(same_endpoint(hosts@[i as int], *h));
            return true;
        }
        i = i + 1;
    }
    false
}

/// Adds to `hosts` the findings of another discovery method, in order,
/// each unless its address and port are listed already.
pub fn merge_hosts(hosts: &mut Vec<DiscoveredHost>, found: Vec<DiscoveredHost>)
    ensures
        final(hosts)@ == merged_hosts(old(hosts)@, found@),
{
    let ghost known = hosts@;
    let ghost all = found@;
    let mut rest = found;
    assert(all.len() == rest.len());
    let mut k: usize = 0;
    while rest.len() > 0
        invariant
            k + rest@.len() == all.len(),
            all.len() <= usize::MAX,
            rest@ == all.subrange(k as int, all.len() as int),
            hosts@ == merged_hosts(known, all.take(k as int)),
        decreases rest.len(),
    {
        let h = rest.remove(0);
        assert(all.take(k + 1).drop_last() =~= all.take(k as int));
        assert(all.take(k + 1).last() == h);
        if !lists_endpoint_exec(hosts, &h) {
            hosts.push(h);
        }
        k = k + 1;
        assert(rest@ =~= all.subrange(k as int, all.len() as int));
    }
    assert(all.take(k as int) =~= all);
}

/// Merging keeps the known hosts first and in order, adds only findings,
/// lists every finding's endpoint, and lists no endpoint twice when the
/// known hosts did not.
pub proof fn lemma_merge_hosts_laws(known: Seq<DiscoveredHost>, found: Seq<DiscoveredHost>)
    ensures
        merged_hosts(known, found).len() >= known.len(),
        merged_hosts(known, found).subrange(0, known.len() as int) == known,
        forall|k: int|
            0 <= k < found.len() ==> lists_endpoint(merged_hosts(known, found), #[trigger] found[k]),
        forall|m: int|
            known.len() <= m < merged_hosts(known, found).len() ==> found.contains(
                #[trigger] merged_hosts(known, found)[m],
            ),
        (forall|i: int, j: int|
            0 <= i < j < known.len() ==> !same_endpoint(#[trigger] known[i], #[trigger] known[j]))
            ==> forall|i: int, j: int|
            0 <= i < j < merged_hosts(known, found).len() ==> !same_endpoint(
                #[trigger] merged_hosts(known, found)[i],
                #[trigger] merged_hosts(known, found)[j],
            ),
    decreases found.len(),
{
    if found.len() == 0 {
        assert(known.subrange(0, known.len() as int) =~= known);
    } else {
        let pf = found.drop_last();
        lemma_merge_hosts_laws(known, pf);
        let prev = merged_hosts(known, pf);
        let r = merged_hosts(known, found);
        if !lists_endpoint(prev, found.last()) {
            assert(r.subrange(0, known.len() as int) =~= prev.subrange(0, known.len() as int));
        }
        assert forall|k: int| 0 <= k < found.len() implies lists_endpoint(r, #[trigger] found[k]) by {
            if k < found.len() - 1 {
                assert(found[k] == pf[k]);
                assert(lists_endpoint(prev, pf[k]));
                let m = choose|m: int| 0 <= m < prev.len() && same_endpoint(#[trigger] prev[m], pf[k]);
                assert(r[m] == prev[m]);
            } else if !lists_endpoint(prev, found.last()) {
                assert(r[prev.len() as int] == found.last());
            }
        }
        assert forall|m: int| known.len() <= m < r.len() implies found.contains(#[trigger] r[m]) by {
            if m < prev.len() {
                assert(r[m] == prev[m]);
                assert(pf.contains(prev[m]));
                let q = choose|q: int| 0 <= q < pf.len() && pf[q] == prev[m];
                assert(found[q] == pf[q]);
            } else {
                assert(found[found.len() - 1] == found.last());
            }
        }
    }
}

/// What the bridge tells the interface when the host's capture switched
/// backends.
pub struct BackendSwitchReport {
    pub from: CaptureBackend,
    pub to: CaptureBackend,
    pub reason: String,
}

/// Reads a backend switch the host reported by name: each name read back
/// as a backend (`PrintWindow` when unknown), and a reason naming both.
pub fn backend_switch_report(from: &str, to: &str) -> (r: BackendSwitchReport)
    ensures
        r.from == backend_named(from@),
        r.to == backend_named(to@),
        r.reason@ == "Switched from "@ + from@ + " to "@ + to@,
{
    let mut reason = String::from_str("Switched from ");
    reason.append(from);
    reason.append(" to ");
    reason.append(to);
    BackendSwitchReport {
        from: CaptureBackend::from_name(from),
        to: CaptureBackend::from_name(to),
        reason,
    }
}

/// The record of a host that answered the subnet scan at `ip`: named
/// `Beacon@` and its address, with no version, MAC or TLS information.
pub fn scanned_host(ip: Ipv4, port: u16) -> (h: DiscoveredHost)
    ensures
        h.address@ == ipv4_text(ip),
        h.name@ == "Beacon@"@ + ipv4_text(ip),
        h.port == port,
        h.version is None,
        h.mac is None,
        h.tls is None,
{
    let address = ipv4_to_text(ip);
    let mut name = String::from_str("Beacon@");
    name.append(address.as_str());
    DiscoveredHost { name, address, port, version: None, mac: None, tls: None }
}

/// Whether an event name is one the service pushes on its own, for
/// messages without a type tag: statistics, capture state, client
/// arrivals and departures, received video, pairing codes and encoder
/// readiness (not `share_started` or `share_stopped`, which also answer
/// commands).
pub open spec fn is_push_event_name(name: Seq<char>) -> bool {
    ||| name == "stats"@
    ||| name == "capture_backend_switched"@
    ||| name == "render_suspended"@
    ||| name == "render_resumed"@
    ||| name == "capture_lost"@
    ||| name == "capture_recovered"@
    ||| name == "client_connected"@
    ||| name == "client_disconnected"@
    ||| name == "recv_stats"@
    ||| name == "video_chunk"@
    ||| name == "pairing_code"@
    ||| name == "encoder_ready"@
}

/// Whether a message from the service is a pushed event rather than the
/// answer to a command: by its type tag when it has one (`event`), else by
/// its event name.
pub open spec fn is_push_message(type_tag: Option<Seq<char>>, event_name: Option<Seq<char>>) -> bool {
    match type_tag {
        Some(t) => t == "event"@,
        None => match event_name {
            Some(n) => is_push_event_name(n),
            None => false,
        },
    }
}

/// Classifies a message from the service by its type tag and event name
/// (each `None` when the field is missing or not a string).
pub fn classify_push(type_tag: Option<&str>, event_name: Option<&str>) -> (r: bool)
    ensures
        r == is_push_message(opt_chars(type_tag), opt_chars(event_name)),
{
    match type_tag {
        Some(t) => same_text(t, "event"),
        None => match event_name {
            Some(name) => same_text(name, "stats") || same_text(name, "capture_backend_switched") || same_text(name, "render_suspended") || same_text(name, "render_resumed") || same_text(name, "capture_lost") || same_text(name, "capture_recovered") || same_text(name, "client_connected") || same_text(name, "client_disconnected") || same_text(name, "recv_stats") || same_text(name, "video_chunk") || same_text(name, "pairing_code") || same_text(name, "encoder_ready"),
            None => false,
        },
    }
}

/// The pairing code a join request carries: none when the interface left
/// the field empty.
pub fn join_pairing_code(code: String) -> (r: Option<String>)
    ensures
        code@.len() == 0 ==> r is None,
        code@.len() > 0 ==> (r matches Some(c) && c@ == code@),
{
    if code.as_str().unicode_len() == 0 {
        None
    } else {
        Some(code)
    }
}

/// The name the interface hears a pushed event under: its `event` field,
/// or `service-event` when it has none.
pub fn relayed_event_name(event: Option<&str>) -> (r: String)
    ensures
        r@ == (match event {
            Some(e) => e@,
            None => "service-event"@,
        }),
{
    match event {
        Some(e) => String::from_str(e),
        None => String::from_str("service-event"),
    }
}

/// The named pipe between the interface and its service: the player's or
/// the host's.
pub fn service_pipe_name(is_player: bool) -> (r: &'static str)
    ensures
        r@ == (if is_player {
            "\\\\.\\pipe\\Pulse"@
        } else {
            "\\\\.\\pipe\\Beacon"@
        }),
{
    if is_player {
        "\\\\.\\pipe\\Pulse"
    } else {
        "\\\\.\\pipe\\Beacon"
    }
}

/// The encoder bitrate, in bits per second, that a bitrate set in kbit/s
/// asks for.
pub fn bitrate_bps_of_kbps(kbps: u32) -> (bps: u32)
    requires
        kbps * 1000 <= u32::MAX,
    ensures
        bps == kbps * 1000,
{
    kbps * 1000
}

} // verus!
