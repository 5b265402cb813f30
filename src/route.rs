use vstd::prelude::*;

verus! {

/// Pattern for the outgoing interface in `ip -o route get` output.
pub const DEV_PATTERN: &'static str = r"\bdev\s+(\S+)";

/// Pattern for the preferred source address.
pub const SRC_PATTERN: &'static str = r"\bsrc\s+(\S+)";

/// Pattern for the source address of routes that report it as `from`.
pub const FROM_PATTERN: &'static str = r"\bfrom\s+(\S+)";

/// Shown in place of a route detail that could not be found.
pub const UNKNOWN: &'static str = "unknown";

/// The text of the first capture group of the leftmost match of `pattern`
/// in `text`; none when there is no match or the pattern does not compile.
pub uninterp spec fn first_capture_of(pattern: Seq<char>, text: Seq<char>) -> Option<Seq<char>>;

pub open spec fn opt_view(o: Option<String>) -> Option<Seq<char>> {
    match o {
        Some(s) => Some(s@),
        None => None,
    }
}

/// Relies on `regex::Regex::new` to compile the pattern and on
/// `regex::Regex::captures` to find its leftmost match; the result depends
/// on the pattern and the text alone.
#[verifier::external_body]
fn first_capture(pattern: &str, text: &str) -> (r: Option<String>)
    ensures
        opt_view(r) == first_capture_of(pattern@, text@),
{
    match regex::Regex::new(pattern) {
        Ok(re) => re.captures(text).and_then(|c| c.get(1)).map(|m| m.as_str().to_string()),
        Err(_) => None,
    }
}

/// Where the route lookup says traffic to the peer leaves from.
#[derive(Debug, PartialEq, Eq)]
pub struct RouteInfo {
    /// Local source address, if one was found.
    pub source: Option<String>,
    /// Outgoing interface, if one was found.
    pub interface: Option<String>,
}

/// The address family option for a remote address: an address holding a
/// colon is IPv6.
pub open spec fn family_flag(remote_ip: Seq<char>) -> Seq<char> {
    if remote_ip.contains(':') {
        "-6"@
    } else {
        "-4"@
    }
}

/// Arguments of the `ip` command that looks up the route to `remote_ip`,
/// one line of output per route.
pub fn route_probe_args(remote_ip: &str) -> (r: Vec<String>)
    ensures
        r@.map_values(|s: String| s@) == seq!["-o"@, family_flag(remote_ip@), "route"@, "get"@, remote_ip@],
{
    let n = remote_ip.unicode_len();
    let mut has_colon = false;
    let mut i: usize = 0;
    while i < n
        invariant
            n == remote_ip@.len(),
            i <= n,
            has_colon == remote_ip@.take(i as int).contains(':'),
        decreases n - i,
    {
        let c = remote_ip.get_char(i);
        proof {
            let t = remote_ip@.take(i as int);
            let t1 = remote_ip@.take(i + 1);
            assert(t1 =~= t.push(c));
            if t.contains(':') {
                let j = choose|j: int| 0 <= j < t.len() && t[j] == ':';
                assert(t1[j] == ':');
            }
            if c == ':' {
                assert(t1[i as int] == ':');
            }
            if t1.contains(':') {
                let j = choose|j: int| 0 <= j < t1.len() && t1[j] == ':';
                if j < i {
                    assert(t[j] == ':');
                }
            }
        }
        if c == ':' {
            has_colon = true;
        }
        i = i + 1;
    }
    assert(remote_ip@.take(n as int) =~= remote_ip@);
    let family = if has_colon {
        "-6".to_owned()
    } else {
        "-4".to_owned()
    };
    let mut r: Vec<String> = Vec::new();
    r.push("-o".to_owned());
    r.push(family);
    r.push("route".to_owned());
    r.push("get".to_owned());
    r.push(remote_ip.to_owned());
    assert(r@.map_values(|s: String| s@) =~= seq!["-o"@, family_flag(remote_ip@), "route"@, "get"@, remote_ip@]);
    r
}

/// The source address to show: the one reported as `src`, or else the one
/// reported as `from`.
pub fn preferred_source(src: Option<String>, from: Option<String>) -> (r: Option<String>)
    ensures
        r == (if src is Some {
            src
        } else {
            from
        }),
{
    match src {
        Some(s) => Some(s),
        None => from,
    }
}

/// Reads the source address and the interface out of the output of the
/// route lookup.
pub fn parse_route_output(out: &str) -> (r: RouteInfo)
    ensures
        opt_view(r.interface) == first_capture_of(DEV_PATTERN@, out@),
        opt_view(r.source) == (if first_capture_of(SRC_PATTERN@, out@) is Some {
            first_capture_of(SRC_PATTERN@, out@)
        } else {
            first_capture_of(FROM_PATTERN@, out@)
        }),
{
    let interface = first_capture(DEV_PATTERN, out);
    let src = first_capture(SRC_PATTERN, out);
    let from = if src.is_some() {
        None
    } else {
        first_capture(FROM_PATTERN, out)
    };
    RouteInfo { source: preferred_source(src, from), interface }
}

/// A route detail as shown to the user, `unknown` when it is missing.
pub fn detail_label(detail: Option<String>) -> (r: String)
    ensures
        r@ == match detail {
            Some(s) => s@,
            None => UNKNOWN@,
        },
{
    match detail {
        Some(s) => s,
        None => UNKNOWN.to_owned(),
    }
}

} // verus!
