use vstd::prelude::*;
use crate::text::{
    chars_of_str, check_space, contains_seq, contains_sub, count_while, dec_digits, find_sub,
    index_of_sub, is_space, ms_token_value, round_ms_token, split_chars, split_on, starts_with_seq,
    check_starts_with, string_of_chars, subvec, trim_chars, trim_spec, u64_to_chars,
};

verus! {

/// Quality tier of the TCP connect probe.
#[derive(Clone, Copy, PartialEq, Eq, Structural, Debug)]
pub enum SpeedLevel {
    Excellent,
    Good,
    Fair,
    Slow,
}

impl Default for SpeedLevel {
    /// The middle-of-the-road tier stands until a probe has run.
    fn default() -> (r: Self)
        ensures
            r == SpeedLevel::Fair,
    {
        SpeedLevel::Fair
    }
}

pub open spec fn spec_classify_speed(elapsed_ms: u64) -> SpeedLevel {
    if elapsed_ms < 100 {
        SpeedLevel::Excellent
    } else if elapsed_ms < 200 {
        SpeedLevel::Good
    } else if elapsed_ms < 500 {
        SpeedLevel::Fair
    } else {
        SpeedLevel::Slow
    }
}

/// The network prober. It holds no state; the probes' input/output sides live
/// with the caller, which hands their text and timings in.
#[derive(Clone, Copy)]
pub struct NetworkMonitor;

impl Default for NetworkMonitor {
    fn default() -> (r: Self)
        ensures
            r == NetworkMonitor,
    {
        Self::new()
    }
}

impl NetworkMonitor {
    pub fn new() -> (r: Self)
        ensures
            r == NetworkMonitor,
    {
        NetworkMonitor
    }

    /// Tier a connect time: under 100 ms excellent, under 200 ms good, under
    /// 500 ms fair, else slow.
    pub fn classify_speed(&self, elapsed_ms: u64) -> (level: SpeedLevel)
        ensures
            level == spec_classify_speed(elapsed_ms),
    {
        if elapsed_ms < 100 {
            SpeedLevel::Excellent
        } else if elapsed_ms < 200 {
            SpeedLevel::Good
        } else if elapsed_ms < 500 {
            SpeedLevel::Fair
        } else {
            SpeedLevel::Slow
        }
    }
}

/// First line of the output that contains `needle`.
pub open spec fn find_line(ls: Seq<Seq<char>>, needle: Seq<char>) -> Option<Seq<char>>
    decreases ls.len(),
{
    if ls.len() == 0 {
        None
    } else if contains_seq(ls[0], needle) {
        Some(ls[0])
    } else {
        find_line(ls.drop_first(), needle)
    }
}

/// The label read from a summary line `round-trip min/avg/max/... = a/b/c/d ms`:
/// the second slash-separated value after the first equals sign, rounded to
/// whole milliseconds, or kept as written when it is no plain number.
pub open spec fn avg_line_label(line: Seq<char>) -> Seq<char> {
    let pieces = split_on(line, '=');
    if pieces.len() >= 2 {
        let fields = split_on(trim_spec(pieces[1]), '/');
        if fields.len() >= 2 {
            match ms_token_value(fields[1]) {
                Some(ms) => dec_digits(ms) + "ms"@,
                None => fields[1] + "ms"@,
            }
        } else {
            "< 5ms"@
        }
    } else {
        "< 5ms"@
    }
}

/// The label read from an echo line `... time=23.4 ms ...`: the first
/// whitespace-bounded token after `time=`, rounded to whole milliseconds, or
/// kept as written when it is no plain number.
pub open spec fn time_line_label(line: Seq<char>) -> Seq<char> {
    match index_of_sub(line, "time="@) {
        Some(i) => {
            let rest = line.skip(i + 5);
            let w = count_while(rest, |c: char| is_space(c));
            let t = rest.skip(w);
            let token = t.take(count_while(t, |c: char| !is_space(c)));
            if token.len() == 0 {
                "< 5ms"@
            } else {
                match ms_token_value(token) {
                    Some(ms) => dec_digits(ms) + "ms"@,
                    None => token + "ms"@,
                }
            }
        },
        None => "< 5ms"@,
    }
}

/// The latency label of a successful echo: read the `min/avg/max` summary line
/// if there is one, else the first `time=` line, else `< 5ms`.
pub open spec fn ping_latency_label(out: Seq<char>) -> Seq<char> {
    let ls = split_on(out, '\n');
    match find_line(ls, "min/avg/max"@) {
        Some(line) => avg_line_label(line),
        None => match find_line(ls, "time="@) {
            Some(line) => time_line_label(line),
            None => "< 5ms"@,
        },
    }
}

proof fn lemma_find_line_contains(ls: Seq<Seq<char>>, needle: Seq<char>)
    ensures
        find_line(ls, needle) matches Some(l) ==> contains_seq(l, needle),
    decreases ls.len(),
{
    if ls.len() > 0 && !contains_seq(ls[0], needle) {
        lemma_find_line_contains(ls.drop_first(), needle);
    }
}

fn find_line_vec(lines: &Vec<Vec<char>>, needle: &Vec<char>) -> (r: Option<usize>)
    ensures
        match r {
            Some(i) => i < lines@.len() && find_line(lines.deep_view(), needle@) == Some(
                lines@[i as int]@,
            ),
            None => find_line(lines.deep_view(), needle@) is None,
        },
{
    let ghost ls = lines.deep_view();
    let n = lines.len();
    let mut i: usize = 0;
    proof {
        assert(ls.skip(0) =~= ls);
    }
    while i < n
        invariant
            n == lines@.len(),
            n == ls.len(),
            ls == lines.deep_view(),
            i <= n,
            find_line(ls, needle@) == find_line(ls.skip(i as int), needle@),
        decreases n - i,
    {
        proof {
            assert(ls.skip(i as int)[0] == ls[i as int]);
            assert(ls.skip(i as int).drop_first() =~= ls.skip(i as int + 1));
            assert(lines@[i as int]@ =~= ls[i as int]);
        }
        if contains_sub(&lines[i], needle) {
            return Some(i);
        }
        i = i + 1;
    }
    proof {
        assert(ls.skip(n as int) =~= Seq::<Seq<char>>::empty());
    }
    None
}

fn label_of_ms(v: &Vec<char>) -> (s: String)
    ensures
        s@ == (match ms_token_value(v@) {
            Some(ms) => dec_digits(ms) + "ms"@,
            None => v@ + "ms"@,
        }),
{
    match round_ms_token(v) {
        Some(ms) => {
            let mut w = u64_to_chars(ms);
            w.push('m');
            w.push('s');
            proof {
                reveal_strlit("ms");
                assert(w@ =~= dec_digits(ms as nat) + "ms"@);
            }
            string_of_chars(&w)
        },
        None => {
            let mut w = subvec(v, 0, v.len());
            w.push('m');
            w.push('s');
            proof {
                reveal_strlit("ms");
                assert(v@.subrange(0, v@.len() as int) =~= v@);
                assert(w@ =~= v@ + "ms"@);
            }
            string_of_chars(&w)
        },
    }
}

/// Extract the latency label from a successful echo command's output.
pub fn parse_ping_output(out: &str) -> (s: String)
    ensures
        s@ == ping_latency_label(out@),
{
    let chars = chars_of_str(out);
    let lines = split_chars(&chars, '\n');
    let ghost ls = split_on(out@, '\n');
    let needle_avg = chars_of_str("min/avg/max");
    match find_line_vec(&lines, &needle_avg) {
        Some(i) => {
            let line = &lines[i];
            let ghost lv = lines@[i as int]@;
            let pieces = split_chars(line, '=');
            let ghost ps = split_on(lv, '=');
            proof {
                assert(pieces.deep_view() == ps);
            }
            if pieces.len() >= 2 {
                proof {
                    assert(pieces@[1]@ =~= ps[1]);
                }
                let trimmed = trim_chars(&pieces[1]);
                let fields = split_chars(&trimmed, '/');
                let ghost fs = split_on(trim_spec(ps[1]), '/');
                proof {
                    assert(fields.deep_view() == fs);
                }
                if fields.len() >= 2 {
                    proof {
                        assert(fields@[1]@ =~= fs[1]);
                    }
                    label_of_ms(&fields[1])
                } else {
                    let r = chars_of_str("< 5ms");
                    string_of_chars(&r)
                }
            } else {
                let r = chars_of_str("< 5ms");
                string_of_chars(&r)
            }
        },
        None => {
            let needle_time = chars_of_str("time=");
            match find_line_vec(&lines, &needle_time) {
                Some(i) => {
                    let line = &lines[i];
                    let ghost lv = lines@[i as int]@;
                    match find_sub(line, &needle_time) {
                        Some(p) => {
                            let ghost rest = lv.skip(p as int + 5);
                            proof {
                                reveal_strlit("time=");
                                assert(needle_time@.len() == 5);
                                assert(lv.skip(p as int + 5) == rest);
                            }
                            let len = line.len();
                            let mut a: usize = p + 5;
                            while a < len && check_space(line[a])
                                invariant
                                    p + 5 <= a <= len,
                                    len == lv.len(),
                                    lv == line@,
                                    forall|t: int| p + 5 <= t < a ==> is_space(lv[t]),
                                decreases len - a,
                            {
                                a = a + 1;
                            }
                            let mut b: usize = a;
                            while b < len && !check_space(line[b])
                                invariant
                                    a <= b <= len,
                                    len == lv.len(),
                                    lv == line@,
                                    forall|t: int| a <= t < b ==> !is_space(lv[t]),
                                decreases len - b,
                            {
                                b = b + 1;
                            }
                            proof {
                                let f_sp = |c: char| is_space(c);
                                let f_ns = |c: char| !is_space(c);
                                assert forall|t: int|
                                    0 <= t < a - (p + 5) implies f_sp(rest[t]) by {
                                    assert(rest[t] == lv[t + p + 5]);
                                }
                                if a < len {
                                    assert(rest[a - (p + 5)] == lv[a as int]);
                                }
                                crate::text::lemma_count_while_eq(rest, f_sp, a - (p + 5));
                                let t_seq = rest.skip(a - (p + 5));
                                assert(t_seq =~= lv.skip(a as int));
                                assert forall|t: int| 0 <= t < b - a implies f_ns(t_seq[t]) by {
                                    assert(t_seq[t] == lv[t + a]);
                                }
                                if b < len {
                                    assert(t_seq[b - a] == lv[b as int]);
                                }
                                crate::text::lemma_count_while_eq(t_seq, f_ns, b - a);
                                assert(t_seq.take(b - a) =~= lv.subrange(a as int, b as int));
                            }
                            if b == a {
                                let r = chars_of_str("< 5ms");
                                string_of_chars(&r)
                            } else {
                                let token = subvec(line, a, b);
                                label_of_ms(&token)
                            }
                        },
                        None => {
                            proof {
                                lemma_find_line_contains(ls, needle_time@);
                                assert(contains_seq(lv, needle_time@));
                                let w = choose|w: int|
                                    0 <= w && w + needle_time@.len() <= lv.len()
                                        && #[trigger] lv.subrange(w, w + needle_time@.len())
                                        == needle_time@;
                                crate::text::lemma_index_none_no_match(lv, needle_time@, w);
                                assert(false);
                            }
                            let r = chars_of_str("< 5ms");
                            string_of_chars(&r)
                        },
                    }
                },
                None => {
                    let r = chars_of_str("< 5ms");
                    string_of_chars(&r)
                },
            }
        },
    }
}

} // verus!

verus! {

/// What the platform proxy listing says, folded line by line: whether a line
/// `Enabled: Yes` was seen, and the last `Server: ` and `Port: ` values.
pub open spec fn proxy_fold(ls: Seq<Seq<char>>, n: int) -> (bool, Seq<char>, Seq<char>)
    decreases n,
{
    if n <= 0 {
        (false, Seq::<char>::empty(), Seq::<char>::empty())
    } else {
        let prev = proxy_fold(ls, n - 1);
        let line = ls[n - 1];
        if starts_with_seq(line, "Enabled: Yes"@) {
            (true, prev.1, prev.2)
        } else if starts_with_seq(line, "Server: "@) {
            (prev.0, trim_spec(line.skip("Server: "@.len() as int)), prev.2)
        } else if starts_with_seq(line, "Port: "@) {
            (prev.0, prev.1, trim_spec(line.skip("Port: "@.len() as int)))
        } else {
            prev
        }
    }
}

/// The proxy `host:port` of the platform's settings listing, when the proxy is
/// enabled and both fields are present.
pub open spec fn proxy_of_settings(out: Seq<char>) -> Option<Seq<char>> {
    let ls = split_on(out, '\n');
    let st = proxy_fold(ls, ls.len() as int);
    if st.0 && st.1.len() > 0 && st.2.len() > 0 {
        Some(st.1 + seq![':'] + st.2)
    } else {
        None
    }
}

/// Read the platform's web-proxy listing: `Enabled: Yes`, `Server: `, `Port: `
/// lines, the last value of each winning.
pub fn parse_proxy_settings(out: &str) -> (r: Option<String>)
    ensures
        match r {
            Some(s) => proxy_of_settings(out@) == Some(s@),
            None => proxy_of_settings(out@) is None,
        },
{
    let chars = chars_of_str(out);
    let lines = split_chars(&chars, '\n');
    let ghost ls = split_on(out@, '\n');
    let p_enabled = chars_of_str("Enabled: Yes");
    let p_server = chars_of_str("Server: ");
    let p_port = chars_of_str("Port: ");
    let mut enabled = false;
    let mut server: Vec<char> = Vec::new();
    let mut port: Vec<char> = Vec::new();
    let mut i: usize = 0;
    let n = lines.len();
    proof {
        assert(server@ =~= Seq::<char>::empty());
        assert(port@ =~= Seq::<char>::empty());
    }
    while i < n
        invariant
            n == lines@.len(),
            n == ls.len(),
            lines.deep_view() == ls,
            i <= n,
            p_enabled@ == "Enabled: Yes"@,
            p_server@ == "Server: "@,
            p_port@ == "Port: "@,
            proxy_fold(ls, i as int) == (enabled, server@, port@),
        decreases n - i,
    {
        let line = &lines[i];
        proof {
            assert(line@ =~= ls[i as int]);
        }
        if check_starts_with(line, &p_enabled) {
            enabled = true;
        } else if check_starts_with(line, &p_server) {
            proof {
                reveal_strlit("Server: ");
                assert(line@.len() >= 8);
            }
            let t = subvec(line, 8, line.len());
            proof {
                assert(line@.subrange(8, line@.len() as int) =~= ls[i as int].skip(8));
            }
            server = trim_chars(&t);
        } else if check_starts_with(line, &p_port) {
            proof {
                reveal_strlit("Port: ");
                assert(line@.len() >= 6);
            }
            let t = subvec(line, 6, line.len());
            proof {
                assert(line@.subrange(6, line@.len() as int) =~= ls[i as int].skip(6));
            }
            port = trim_chars(&t);
        }
        proof {
            reveal_strlit("Server: ");
            reveal_strlit("Port: ");
            assert(proxy_fold(ls, i as int + 1) == (enabled, server@, port@));
        }
        i = i + 1;
    }
    if enabled && server.len() > 0 && port.len() > 0 {
        let mut v = server;
        v.push(':');
        let mut j: usize = 0;
        let ghost port_view = port@;
        while j < port.len()
            invariant
                j <= port@.len(),
                port@ == port_view,
                v@ =~= proxy_fold(ls, n as int).1 + seq![':'] + port_view.subrange(0, j as int),
            decreases port@.len() - j,
        {
            v.push(port[j]);
            j = j + 1;
        }
        proof {
            assert(port_view.subrange(0, port_view.len() as int) =~= port_view);
            assert(v@ =~= proxy_fold(ls, n as int).1 + seq![':'] + port_view);
        }
        Some(string_of_chars(&v))
    } else {
        None
    }
}

/// The address the quality probe connects to: the proxy's `host:port` with any
/// scheme prefix removed, or the well-known address when no proxy is set.
pub open spec fn probe_target(proxy: Option<Seq<char>>) -> Seq<char> {
    match proxy {
        Some(p) => if starts_with_seq(p, "http://"@) {
            p.skip("http://"@.len() as int)
        } else if starts_with_seq(p, "https://"@) {
            p.skip("https://"@.len() as int)
        } else {
            p
        },
        None => "1.1.1.1:443"@,
    }
}

pub fn resolve_probe_target(proxy: Option<String>) -> (t: String)
    ensures
        match proxy {
            Some(p) => t@ == probe_target(Some(p@)),
            None => t@ == probe_target(None),
        },
{
    match proxy {
        Some(p) => {
            let chars = chars_of_str(p.as_str());
            let p_http = chars_of_str("http://");
            let p_https = chars_of_str("https://");
            if check_starts_with(&chars, &p_http) {
                proof {
                    reveal_strlit("http://");
                    assert(chars@.len() >= 7);
                }
                let rest = subvec(&chars, 7, chars.len());
                proof {
                    assert(rest@ =~= p@.skip(7));
                }
                string_of_chars(&rest)
            } else if check_starts_with(&chars, &p_https) {
                proof {
                    reveal_strlit("https://");
                    assert(chars@.len() >= 8);
                }
                let rest = subvec(&chars, 8, chars.len());
                proof {
                    assert(rest@ =~= p@.skip(8));
                }
                string_of_chars(&rest)
            } else {
                p
            }
        },
        None => {
            let v = chars_of_str("1.1.1.1:443");
            string_of_chars(&v)
        },
    }
}

} // verus!
