//! The networks of sandboxes, and the names under which they are reached.
use crate::failure::Failure;
use crate::text::{
    chars_of, decimal, decimal_text, joined3, lemma_decimal_digits, lower, lower_text, pieces,
    split_text, text_eq, texts,
};
use crate::text_laws::{law_pieces, rejoined};
use vstd::prelude::*;

verus! {

/// Which networks a sandbox can reach.
#[derive(Debug, Clone)]
pub struct NetworkEgressConfig {
    /// Networks that no sandbox can reach.
    pub always_denied_cidrs: Vec<String>,
}

/// The networks between the host and its sandboxes.
#[derive(Debug, Clone)]
pub struct NetworkInternalConfig {
    pub host_interaction_cidr: String,
    pub veth_cidr: String,
}

/// The networks of sandboxes.
#[derive(Debug, Clone)]
pub struct NetworkConfig {
    pub egress: NetworkEgressConfig,
    pub internal: NetworkInternalConfig,
}

impl NetworkConfig {
    /// The values of a configuration that sets nothing; which networks they are
    /// is a choice of this library.
    pub open spec fn is_default(self) -> bool {
        &&& self.egress.always_denied_cidrs@.len() == 0
        &&& self.internal.host_interaction_cidr@ == "100.64.0.0/16"@
        &&& self.internal.veth_cidr@ == "100.65.0.0/16"@
    }
}

impl Default for NetworkConfig {
    fn default() -> (r: Self)
        ensures
            r.is_default(),
    {
        NetworkConfig {
            egress: NetworkEgressConfig { always_denied_cidrs: Vec::new() },
            internal: NetworkInternalConfig {
                host_interaction_cidr: "100.64.0.0/16".to_owned(),
                veth_cidr: "100.65.0.0/16".to_owned(),
            },
        }
    }
}

/// `s` is a number up to `max`, written without leading zeros.
pub open spec fn is_number(s: Seq<char>, max: nat) -> bool {
    exists|n: nat| n <= max && s == #[trigger] decimal(n)
}

/// `s` is an IPv4 network: four numbers up to 255 with dots between them, a
/// slash and a prefix length up to 32. That a network is written in just this
/// way, without leading zeros, is a choice of this library.
pub open spec fn is_cidr(s: Seq<char>) -> bool {
    let halves = pieces(s, '/');
    let octets = pieces(halves[0], '.');
    &&& halves.len() == 2
    &&& is_number(halves[1], 32)
    &&& octets.len() == 4
    &&& is_number(octets[0], 255)
    &&& is_number(octets[1], 255)
    &&& is_number(octets[2], 255)
    &&& is_number(octets[3], 255)
}

fn number_upto(s: &str, max: u64) -> (r: bool)
    requires
        max < 1000,
    ensures
        r == is_number(s@, max as nat),
{
    let mut n: u64 = 0;
    while n <= max
        invariant
            max < 1000,
            n <= max + 1,
            forall|k: nat| k < n ==> s@ != #[trigger] decimal(k),
        decreases max + 1 - n,
    {
        if text_eq(s, decimal_text(n).as_str()) {
            assert(s@ == decimal(n as nat));
            return true;
        }
        n = n + 1;
    }
    false
}

/// Whether `s` is an IPv4 network.
pub fn cidr_ok(s: &str) -> (r: bool)
    ensures
        r == is_cidr(s@),
{
    let halves: Vec<String> = split_text(s, '/');
    assert(texts(halves@)[0] == halves@[0]@);
    let octets: Vec<String> = split_text(halves[0].as_str(), '.');
    if halves.len() != 2 || octets.len() != 4 {
        assert(pieces(s@, '/').len() == halves@.len());
        assert(pieces(pieces(s@, '/')[0], '.').len() == octets@.len());
        return false;
    }
    assert(texts(halves@)[1] == halves@[1]@);
    assert(texts(octets@)[0] == octets@[0]@);
    assert(texts(octets@)[1] == octets@[1]@);
    assert(texts(octets@)[2] == octets@[2]@);
    assert(texts(octets@)[3] == octets@[3]@);
    number_upto(halves[1].as_str(), 32) && number_upto(octets[0].as_str(), 255) && number_upto(
        octets[1].as_str(),
        255,
    ) && number_upto(octets[2].as_str(), 255) && number_upto(octets[3].as_str(), 255)
}

/// Every network in a configuration, in the order in which they are checked.
pub open spec fn all_cidrs(config: NetworkConfig) -> Seq<Seq<char>> {
    texts(config.egress.always_denied_cidrs@).push(config.internal.host_interaction_cidr@).push(
        config.internal.veth_cidr@,
    )
}

/// The text of the failure for `s`, which is no network.
pub open spec fn bad_cidr_text(s: Seq<char>) -> Seq<char> {
    "invalid network config: not an IPv4 CIDR: '"@ + s + "'"@
}

fn check_cidr(s: &str) -> (r: Result<(), Failure>)
    ensures
        r is Ok <==> is_cidr(s@),
        r matches Err(failure) ==> failure@ == bad_cidr_text(s@),
{
    if cidr_ok(s) {
        Ok(())
    } else {
        Err(Failure::new(joined3("invalid network config: not an IPv4 CIDR: '", s, "'")))
    }
}

impl NetworkConfig {
    /// Every network has to be one; the first that is not is named in the
    /// failure.
    pub fn validate(config: &NetworkConfig) -> (r: Result<(), Failure>)
        ensures
            r is Ok <==> forall|k: int|
                0 <= k < all_cidrs(*config).len() ==> is_cidr(#[trigger] all_cidrs(*config)[k]),
            r matches Err(failure) ==> exists|bad: int|
                {
                    &&& 0 <= bad < all_cidrs(*config).len()
                    &&& !is_cidr(#[trigger] all_cidrs(*config)[bad])
                    &&& forall|k: int| 0 <= k < bad ==> is_cidr(#[trigger] all_cidrs(*config)[k])
                    &&& failure@ == bad_cidr_text(all_cidrs(*config)[bad])
                },
    {
        let denied: &Vec<String> = &config.egress.always_denied_cidrs;
        let ghost all = all_cidrs(*config);
        let ghost n = denied@.len() as int;
        assert(all.len() == n + 2);
        assert(all[n] == config.internal.host_interaction_cidr@);
        assert(all[n + 1] == config.internal.veth_cidr@);
        let mut i: usize = 0;
        while i < denied.len()
            invariant
                i <= denied@.len(),
                denied@ == config.egress.always_denied_cidrs@,
                all == all_cidrs(*config),
                n == denied@.len(),
                all.len() == n + 2,
                forall|k: int| 0 <= k < i ==> is_cidr(#[trigger] all[k]),
            decreases denied@.len() - i,
        {
            assert(all[i as int] == denied@[i as int]@);
            if let Err(failure) = check_cidr(denied[i].as_str()) {
                assert(!is_cidr(all_cidrs(*config)[i as int]));
                return Err(failure);
            }
            i = i + 1;
        }
        if let Err(failure) = check_cidr(config.internal.host_interaction_cidr.as_str()) {
            assert(!is_cidr(all_cidrs(*config)[n]));
            return Err(failure);
        }
        if let Err(failure) = check_cidr(config.internal.veth_cidr.as_str()) {
            assert(!is_cidr(all_cidrs(*config)[n + 1]));
            return Err(failure);
        }
        assert forall|k: int| 0 <= k < all_cidrs(*config).len() implies is_cidr(
            #[trigger] all_cidrs(*config)[k],
        ) by {
            assert(k < n ==> is_cidr(all[k]));
        }
        Ok(())
    }
}

/// A character of a label of a host name.
pub open spec fn label_char(c: char) -> bool {
    ||| 'a' <= c && c <= 'z'
    ||| '0' <= c && c <= '9'
    ||| c == '-'
}

/// A label of a host name: up to 63 letters, digits and hyphens, without a
/// hyphen at either end.
pub open spec fn is_label(s: Seq<char>) -> bool {
    &&& 1 <= s.len() <= 63
    &&& forall|k: int| 0 <= k < s.len() ==> label_char(#[trigger] s[k])
    &&& s[0] != '-'
    &&& s.last() != '-'
}

/// A host name in lower case: labels with dots between them, up to 253
/// characters.
pub open spec fn is_dns_name(s: Seq<char>) -> bool {
    &&& s.len() <= 253
    &&& forall|k: int| 0 <= k < pieces(s, '.').len() ==> is_label(#[trigger] pieces(s, '.')[k])
}

/// The host name that `s` stands for, in lower case. Which names are host names,
/// the letters, lengths and hyphens of `is_dns_name`, is a choice of this library.
pub open spec fn dns_name(s: Seq<char>) -> Option<Seq<char>> {
    if is_dns_name(lower(s)) {
        Some(lower(s))
    } else {
        None
    }
}

fn label_ok(s: &str) -> (r: bool)
    ensures
        r == is_label(s@),
{
    let chars: Vec<char> = chars_of(s);
    if chars.len() < 1 || chars.len() > 63 {
        return false;
    }
    if chars[0] == '-' || chars[chars.len() - 1] == '-' {
        return false;
    }
    let mut i: usize = 0;
    while i < chars.len()
        invariant
            chars@ == s@,
            i <= chars@.len(),
            forall|k: int| 0 <= k < i ==> label_char(#[trigger] s@[k]),
        decreases chars@.len() - i,
    {
        let c: char = chars[i];
        if !(('a' <= c && c <= 'z') || ('0' <= c && c <= '9') || c == '-') {
            assert(!label_char(s@[i as int]));
            return false;
        }
        i = i + 1;
    }
    true
}

/// The host name that `s` stands for, in lower case.
pub fn normalize_dns_name(s: &str) -> (r: Option<String>)
    ensures
        r is Some <==> dns_name(s@) is Some,
        r matches Some(name) ==> Some(name@) == dns_name(s@),
{
    let name: String = lower_text(s);
    if chars_of(name.as_str()).len() > 253 {
        return None;
    }
    let labels: Vec<String> = split_text(name.as_str(), '.');
    let mut i: usize = 0;
    while i < labels.len()
        invariant
            name@ == lower(s@),
            texts(labels@) == pieces(name@, '.'),
            i <= labels@.len(),
            forall|k: int| 0 <= k < i ==> is_label(#[trigger] pieces(name@, '.')[k]),
        decreases labels@.len() - i,
    {
        assert(pieces(name@, '.')[i as int] == labels@[i as int]@);
        if !label_ok(labels[i].as_str()) {
            return None;
        }
        i = i + 1;
    }
    Some(name)
}

proof fn lemma_pieces_append(s: Seq<char>, c: char, t: Seq<char>)
    requires
        forall|k: int| 0 <= k < t.len() ==> #[trigger] t[k] != c,
    ensures
        pieces(s.push(c) + t, c) == pieces(s, c).push(t),
    decreases t.len(),
{
    if t.len() == 0 {
        assert(s.push(c) + t =~= s.push(c));
        assert(s.push(c).drop_last() =~= s);
        assert(t =~= Seq::empty());
    } else {
        let rest = t.drop_last();
        assert forall|k: int| 0 <= k < rest.len() implies #[trigger] rest[k] != c by {
            assert(rest[k] == t[k]);
        }
        lemma_pieces_append(s, c, rest);
        let whole = s.push(c) + t;
        assert(whole.drop_last() =~= s.push(c) + rest);
        assert(whole.last() == t.last());
        assert(t[t.len() - 1] != c);
        let head = pieces(s, c).push(rest);
        assert(head.drop_last() =~= pieces(s, c));
        assert(rest.push(t.last()) =~= t);
    }
}

proof fn lemma_pieces_whole(t: Seq<char>, c: char)
    requires
        forall|k: int| 0 <= k < t.len() ==> #[trigger] t[k] != c,
    ensures
        pieces(t, c) == seq![t],
    decreases t.len(),
{
    if t.len() == 0 {
        assert(t =~= Seq::empty());
    } else {
        let rest = t.drop_last();
        assert forall|k: int| 0 <= k < rest.len() implies #[trigger] rest[k] != c by {
            assert(rest[k] == t[k]);
        }
        lemma_pieces_whole(rest, c);
        assert(t[t.len() - 1] != c);
        assert(rest.push(t.last()) =~= t);
        assert(seq![rest].drop_last().push(t) =~= seq![t]);
    }
}

/// An IPv4 network in writing.
pub open spec fn cidr_text(a: nat, b: nat, c: nat, d: nat, prefix: nat) -> Seq<char> {
    decimal(a).push('.') + decimal(b).push('.') + decimal(c).push('.') + decimal(d).push('/')
        + decimal(prefix)
}

/// Every IPv4 network in writing is accepted: four numbers up to 255 with dots
/// between them, a slash and a prefix length up to 32.
pub proof fn law_networks(a: nat, b: nat, c: nat, d: nat, prefix: nat)
    requires
        a <= 255,
        b <= 255,
        c <= 255,
        d <= 255,
        prefix <= 32,
    ensures
        is_cidr(cidr_text(a, b, c, d, prefix)),
{
    lemma_decimal_digits(a);
    lemma_decimal_digits(b);
    lemma_decimal_digits(c);
    lemma_decimal_digits(d);
    lemma_decimal_digits(prefix);
    let da = decimal(a);
    let ab = da.push('.') + decimal(b);
    let abc = ab.push('.') + decimal(c);
    let host = abc.push('.') + decimal(d);
    let s = cidr_text(a, b, c, d, prefix);
    assert(s =~= host.push('/') + decimal(prefix));
    assert forall|k: int| 0 <= k < host.len() implies #[trigger] host[k] != '/' by {
        if k < da.len() {
            assert(host[k] == da[k]);
        } else if k == da.len() {
        } else if k < ab.len() {
            assert(host[k] == decimal(b)[k - da.len() - 1]);
        } else if k == ab.len() {
        } else if k < abc.len() {
            assert(host[k] == decimal(c)[k - ab.len() - 1]);
        } else if k > abc.len() {
            assert(host[k] == decimal(d)[k - abc.len() - 1]);
        }
    }
    lemma_pieces_whole(host, '/');
    lemma_pieces_append(host, '/', decimal(prefix));
    assert(pieces(s, '/') =~= seq![host, decimal(prefix)]);
    lemma_pieces_whole(da, '.');
    lemma_pieces_append(da, '.', decimal(b));
    lemma_pieces_append(ab, '.', decimal(c));
    lemma_pieces_append(abc, '.', decimal(d));
    assert(pieces(host, '.') =~= seq![da, decimal(b), decimal(c), decimal(d)]);
}

/// What is accepted as a network is one in writing.
pub proof fn law_accepted_networks(s: Seq<char>)
    requires
        is_cidr(s),
    ensures
        exists|a: nat, b: nat, c: nat, d: nat, prefix: nat|
            a <= 255 && b <= 255 && c <= 255 && d <= 255 && prefix <= 32 && s == #[trigger] cidr_text(
                a,
                b,
                c,
                d,
                prefix,
            ),
{
    let halves = pieces(s, '/');
    let host = halves[0];
    let octets = pieces(host, '.');
    let a = choose|n: nat| n <= 255 && octets[0] == #[trigger] decimal(n);
    let b = choose|n: nat| n <= 255 && octets[1] == #[trigger] decimal(n);
    let c = choose|n: nat| n <= 255 && octets[2] == #[trigger] decimal(n);
    let d = choose|n: nat| n <= 255 && octets[3] == #[trigger] decimal(n);
    let prefix = choose|n: nat| n <= 32 && halves[1] == #[trigger] decimal(n);
    law_pieces(s, '/');
    law_pieces(host, '.');
    reveal_with_fuel(rejoined, 5);
    assert(octets.drop_last().drop_last().drop_last() =~= seq![octets[0]]);
    assert(host =~= decimal(a).push('.') + decimal(b).push('.') + decimal(c).push('.') + decimal(
        d,
    ));
    assert(halves.drop_last() =~= seq![host]);
    assert(s =~= host.push('/') + decimal(prefix));
    assert(s =~= cidr_text(a, b, c, d, prefix));
}

/// A host name is accepted exactly when it has up to 253 characters and every
/// piece between its dots has 1 to 63 letters, digits and hyphens, without a
/// hyphen at either end; it comes out in lower case.
pub proof fn law_host_names(s: Seq<char>)
    ensures
        dns_name(s) is Some <==> s.len() <= 253 && forall|p: int|
            0 <= p < pieces(lower(s), '.').len() ==> {
                let label = #[trigger] pieces(lower(s), '.')[p];
                &&& 1 <= label.len() <= 63
                &&& label[0] != '-'
                &&& label.last() != '-'
                &&& forall|k: int|
                    0 <= k < label.len() ==> ('a' <= #[trigger] label[k] && label[k] <= 'z') || (
                    '0' <= label[k] && label[k] <= '9') || label[k] == '-'
            },
        dns_name(s) matches Some(name) ==> name == lower(s),
{
    let all = pieces(lower(s), '.');
    assert forall|p: int| 0 <= p < all.len() implies (is_label(#[trigger] all[p]) <==> {
        let label = all[p];
        &&& 1 <= label.len() <= 63
        &&& label[0] != '-'
        &&& label.last() != '-'
        &&& forall|k: int|
            0 <= k < label.len() ==> ('a' <= #[trigger] label[k] && label[k] <= 'z') || ('0'
                <= label[k] && label[k] <= '9') || label[k] == '-'
    }) by {
        let label = all[p];
        if forall|k: int| 0 <= k < label.len() ==> label_char(#[trigger] label[k]) {
            assert forall|k: int| 0 <= k < label.len() implies ('a' <= #[trigger] label[k]
                && label[k] <= 'z') || ('0' <= label[k] && label[k] <= '9') || label[k] == '-' by {
                assert(label_char(label[k]));
            }
        }
    }
}

} // verus!
