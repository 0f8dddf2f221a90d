//! Text logic over URL pieces: the authority a URL names, and the user id
//! that ends a local user's URL path.

use vstd::prelude::*;
use vstd::string::StrSliceExecFns;

use crate::urls::{host_of, port_of, url_host, url_port};

verus! {

/// The character of a decimal digit.
pub open spec fn digit_char(d: nat) -> char {
    if d == 0 { '0' }
    else if d == 1 { '1' }
    else if d == 2 { '2' }
    else if d == 3 { '3' }
    else if d == 4 { '4' }
    else if d == 5 { '5' }
    else if d == 6 { '6' }
    else if d == 7 { '7' }
    else if d == 8 { '8' }
    else { '9' }
}

/// The decimal text of `n`, without leading zeros.
pub open spec fn decimal_text(n: nat) -> Seq<char>
    decreases n,
{
    if n < 10 {
        seq![digit_char(n)]
    } else {
        decimal_text(n / 10).push(digit_char(n % 10))
    }
}

/// The authority that a host and an optional port name: `host`, or
/// `host:port` where a port is given.
pub open spec fn authority(host: Seq<char>, port: Option<u16>) -> Seq<char> {
    match port {
        Some(p) => host + seq![':'] + decimal_text(p as nat),
        None => host,
    }
}

/// A URL refers to the instance served on `domain` when its host, followed by
/// its port where it names one, is that domain.
pub open spec fn url_is_local(url: Seq<char>, domain: Seq<char>) -> bool {
    match url_host(url) {
        Some(host) => authority(host, url_port(url)) == domain,
        None => false,
    }
}

fn digit_string(d: u16) -> (s: String)
    requires
        d < 10,
    ensures
        s@ == seq![digit_char(d as nat)],
{
    let lit = if d == 0 {
        proof { reveal_strlit("0"); }
        "0"
    } else if d == 1 {
        proof { reveal_strlit("1"); }
        "1"
    } else if d == 2 {
        proof { reveal_strlit("2"); }
        "2"
    } else if d == 3 {
        proof { reveal_strlit("3"); }
        "3"
    } else if d == 4 {
        proof { reveal_strlit("4"); }
        "4"
    } else if d == 5 {
        proof { reveal_strlit("5"); }
        "5"
    } else if d == 6 {
        proof { reveal_strlit("6"); }
        "6"
    } else if d == 7 {
        proof { reveal_strlit("7"); }
        "7"
    } else if d == 8 {
        proof { reveal_strlit("8"); }
        "8"
    } else {
        proof { reveal_strlit("9"); }
        "9"
    };
    String::from_str(lit)
}

/// The decimal text of a port number.
pub fn decimal_string(n: u16) -> (s: String)
    ensures
        s@ == decimal_text(n as nat),
    decreases n,
{
    if n < 10 {
        digit_string(n)
    } else {
        let mut s = decimal_string(n / 10);
        let d = digit_string(n % 10);
        s.append(d.as_str());
        s
    }
}

/// Whether a URL with this host and port refers to the instance served on
/// `domain`: the host, with `:port` added where a port is given, equals
/// `domain`; a URL without host never does.
pub fn authority_is(domain: &str, host: Option<String>, port: Option<u16>) -> (res: bool)
    ensures
        res == match host {
            Some(h) => authority(h@, port) == domain@,
            None => false,
        },
{
    match host {
        None => false,
        Some(host) => {
            let ghost h = host@;
            let mut a = host;
            match port {
                Some(p) => {
                    proof { reveal_strlit(":"); }
                    a.append(":");
                    let digits = decimal_string(p);
                    a.append(digits.as_str());
                },
                None => {},
            }
            assert(a@ =~= authority(h, port));
            let d = String::from_str(domain);
            a == d
        },
    }
}

/// Whether `url` refers to the instance served on `domain`: its host, with
/// `:port` added where the URL names a port, equals `domain`.
pub fn is_local_url(url: &str, domain: &str) -> (res: bool)
    ensures
        res == url_is_local(url@, domain@),
{
    let host = host_of(url);
    let port = port_of(url);
    authority_is(domain, host, port)
}

/// `s` without the run of `/` that ends it.
pub open spec fn trim_trailing_slashes(s: Seq<char>) -> Seq<char>
    decreases s.len(),
{
    if s.len() > 0 && s.last() == '/' {
        trim_trailing_slashes(s.drop_last())
    } else {
        s
    }
}

/// The position of the last `/` in `s`.
pub open spec fn last_slash(s: Seq<char>) -> Option<int>
    decreases s.len(),
{
    if s.len() == 0 {
        None
    } else if s.last() == '/' {
        Some(s.len() - 1)
    } else {
        last_slash(s.drop_last())
    }
}

/// The user id that a local user's URL path ends with: the path is stripped of
/// its trailing slashes, and the id is what follows the last remaining slash.
/// `None` where no slash remains.
pub open spec fn user_id_in_path(path: Seq<char>) -> Option<Seq<char>> {
    let t = trim_trailing_slashes(path);
    match last_slash(t) {
        Some(i) => Some(t.subrange(i + 1, t.len() as int)),
        None => None,
    }
}

/// The user id at the end of a URL path, as `user_id_in_path` states it.
pub fn user_id_from_path(path: &str) -> (res: Option<String>)
    ensures
        match res {
            Some(id) => user_id_in_path(path@) == Some(id@),
            None => user_id_in_path(path@) is None,
        },
{
    let n = path.unicode_len();
    let mut end: usize = n;
    assert(path@.subrange(0, n as int) =~= path@);
    while end > 0 && path.get_char(end - 1) == '/'
        invariant
            n == path@.len(),
            end <= n,
            trim_trailing_slashes(path@) == trim_trailing_slashes(path@.subrange(0, end as int)),
        decreases end,
    {
        assert(path@.subrange(0, end as int).drop_last() =~= path@.subrange(0, end - 1));
        end = end - 1;
    }
    let ghost t = path@.subrange(0, end as int);
    assert(trim_trailing_slashes(t) == t);
    let mut j: usize = end;
    while j > 0 && path.get_char(j - 1) != '/'
        invariant
            n == path@.len(),
            j <= end <= n,
            t == path@.subrange(0, end as int),
            last_slash(t) == last_slash(path@.subrange(0, j as int)),
        decreases j,
    {
        assert(path@.subrange(0, j as int).drop_last() =~= path@.subrange(0, j - 1));
        j = j - 1;
    }
    if j == 0 {
        assert(path@.subrange(0, 0) =~= Seq::<char>::empty());
        None
    } else {
        assert(last_slash(path@.subrange(0, j as int)) == Some(j - 1));
        let id = path.substring_char(j, end);
        assert(id@ =~= t.subrange(j as int, t.len() as int));
        Some(String::from_str(id))
    }
}

/// `k` slashes.
pub open spec fn slashes(k: nat) -> Seq<char>
    decreases k,
{
    if k == 0 { Seq::empty() } else { slashes((k - 1) as nat).push('/') }
}

proof fn lemma_trim_slashes(s: Seq<char>, k: nat)
    requires
        s.len() > 0,
        s.last() != '/',
    ensures
        trim_trailing_slashes(s + slashes(k)) == s,
    decreases k,
{
    if k == 0 {
        assert(s + slashes(0) =~= s);
    } else {
        assert((s + slashes(k)).drop_last() =~= s + slashes((k - 1) as nat));
        lemma_trim_slashes(s, (k - 1) as nat);
    }
}

proof fn lemma_last_slash_before(p: Seq<char>, id: Seq<char>)
    requires
        forall|i: int| 0 <= i < id.len() ==> id[i] != '/',
    ensures
        last_slash(p.push('/') + id) == Some(p.len() as int),
    decreases id.len(),
{
    if id.len() == 0 {
        assert(p.push('/') + id =~= p.push('/'));
    } else {
        assert((p.push('/') + id).drop_last() =~= p.push('/') + id.drop_last());
        lemma_last_slash_before(p, id.drop_last());
    }
}

/// A path made of any prefix, a slash, a non-empty user id without slashes and
/// any number of trailing slashes gives that user id back.
pub proof fn lemma_user_id_in_path_roundtrip(prefix: Seq<char>, id: Seq<char>, k: nat)
    requires
        id.len() > 0,
        forall|i: int| 0 <= i < id.len() ==> id[i] != '/',
    ensures
        user_id_in_path(prefix.push('/') + id + slashes(k)) == Some(id),
{
    let s = prefix.push('/') + id;
    assert(s.last() == id.last());
    lemma_trim_slashes(s, k);
    lemma_last_slash_before(prefix, id);
    assert(s.subrange(prefix.len() + 1int, s.len() as int) =~= id);
}

/// The number that a text of decimal digits reads as.
pub open spec fn decimal_value(s: Seq<char>) -> int
    decreases s.len(),
{
    if s.len() == 0 {
        0
    } else {
        decimal_value(s.drop_last()) * 10 + (s.last() as int - '0' as int)
    }
}

/// A text made of the ASCII digits `0` to `9`.
pub open spec fn all_digits(s: Seq<char>) -> bool {
    forall|i: int| 0 <= i < s.len() ==> '0' <= #[trigger] s[i] && s[i] <= '9'
}

/// The digit character of `d` is the ASCII digit `d`.
pub proof fn lemma_digit_char_is_ascii_digit(d: nat)
    requires
        d < 10,
    ensures
        digit_char(d) as int == '0' as int + d,
{
}

/// The decimal text of `n` is a non-empty text of digits, without a leading
/// zero unless it is `0`, that reads back as `n`.
pub proof fn lemma_decimal_text_reads_back(n: nat)
    ensures
        all_digits(decimal_text(n)),
        decimal_text(n).len() > 0,
        decimal_value(decimal_text(n)) == n,
        decimal_text(n).len() > 1 ==> decimal_text(n)[0] != '0',
        n >= 10 ==> decimal_text(n).len() > 1,
    decreases n,
{
    if n < 10 {
        lemma_digit_char_is_ascii_digit(n);
        let t = decimal_text(n);
        assert(t == seq![digit_char(n)]);
        assert(t.drop_last() =~= Seq::<char>::empty());
        assert(decimal_value(t.drop_last()) == 0);
        assert(decimal_value(t) == decimal_value(t.drop_last()) * 10 + (t.last() as int - '0' as int));
    } else {
        lemma_decimal_text_reads_back(n / 10);
        lemma_digit_char_is_ascii_digit(n % 10);
        lemma_digit_char_is_ascii_digit(n / 10 % 10);
        let p = decimal_text(n / 10);
        let t = decimal_text(n);
        assert(t == p.push(digit_char(n % 10)));
        assert(t.drop_last() =~= p);
        assert(decimal_value(t) == decimal_value(p) * 10 + (t.last() as int - '0' as int));
        assert(t[0] == p[0]);
        if n / 10 < 10 {
            lemma_digit_char_is_ascii_digit(n / 10);
            assert(p == seq![digit_char(n / 10)]);
            assert(digit_char(n / 10) as int != '0' as int);
            assert(p[0] != '0');
        } else {
            assert(p.len() > 1);
            assert(p[0] != '0');
        }
    }
}

/// A URL that names a port refers to the instance on `domain` exactly when
/// `domain` is its host, a colon, and a text of digits that reads back as the
/// port.
pub proof fn lemma_local_url_with_port(url: Seq<char>, domain: Seq<char>, host: Seq<char>, port: u16)
    requires
        url_host(url) == Some(host),
        url_port(url) == Some(port),
    ensures
        url_is_local(url, domain) ==> {
            let t = domain.subrange(host.len() + 1int, domain.len() as int);
            &&& domain.len() > host.len() + 1
            &&& domain.subrange(0, host.len() as int) == host
            &&& domain[host.len() as int] == ':'
            &&& all_digits(t)
            &&& decimal_value(t) == port
        },
{
    lemma_decimal_text_reads_back(port as nat);
    if url_is_local(url, domain) {
        let t = domain.subrange(host.len() + 1int, domain.len() as int);
        assert(t =~= decimal_text(port as nat));
        assert(domain.subrange(0, host.len() as int) =~= host);
    }
}

} // verus!
