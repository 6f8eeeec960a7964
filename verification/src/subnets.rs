//! LAN discovery: the `/24` prefixes of this machine's private IPv4 interfaces, which the
//! setup screen sweeps for servers. Reading the interfaces is left to the caller.
use vstd::prelude::*;

use crate::text::{decimal_string, decimal_text};

verus! {

/// What discovery reads of a network interface: whether it is a loopback interface,
/// and its IPv4 address as four octets (`None` for an IPv6 interface).
#[derive(Clone, Copy, Debug)]
pub struct NetInterface {
    pub is_loopback: bool,
    pub ipv4: Option<(u8, u8, u8, u8)>,
}

/// The private IPv4 ranges `10/8`, `172.16/12` and `192.168/16` (link-local `169.254/16` is not one).
pub open spec fn is_private_octets(o: (u8, u8, u8, u8)) -> bool {
    o.0 == 10 || (o.0 == 172 && 16 <= o.1 <= 31) || (o.0 == 192 && o.1 == 168)
}

/// The `/24` prefix of an address as text: its first three octets in decimal, joined by dots.
pub open spec fn prefix_text(o: (u8, u8, u8, u8)) -> Seq<char> {
    decimal_text(o.0 as int) + "."@ + decimal_text(o.1 as int) + "."@ + decimal_text(o.2 as int)
}

/// The prefix an interface contributes: only a private IPv4 address of a non-loopback interface.
pub open spec fn interface_prefix(i: NetInterface) -> Option<Seq<char>> {
    if i.is_loopback {
        None
    } else {
        match i.ipv4 {
            Some(o) => if is_private_octets(o) { Some(prefix_text(o)) } else { None },
            None => None,
        }
    }
}

/// The prefixes of a list of interfaces, each once, in the order of first appearance.
pub open spec fn subnet_prefixes(ifaces: Seq<NetInterface>) -> Seq<Seq<char>>
    decreases ifaces.len(),
{
    if ifaces.len() == 0 {
        Seq::empty()
    } else {
        let prev = subnet_prefixes(ifaces.drop_last());
        match interface_prefix(ifaces.last()) {
            Some(p) => if prev.contains(p) { prev } else { prev.push(p) },
            None => prev,
        }
    }
}

/// Whether an address lies in a private IPv4 range.
pub fn is_private_ipv4(o: (u8, u8, u8, u8)) -> (r: bool)
    ensures
        r == is_private_octets(o),
{
    o.0 == 10 || (o.0 == 172 && 16 <= o.1 && o.1 <= 31) || (o.0 == 192 && o.1 == 168)
}

/// The `/24` prefix of an address, such as `"192.168.1"`.
pub fn subnet_prefix(o: (u8, u8, u8, u8)) -> (r: String)
    ensures
        r@ == prefix_text(o),
{
    let mut r = decimal_string(o.0 as i64);
    r.append(".");
    let b = decimal_string(o.1 as i64);
    r.append(b.as_str());
    r.append(".");
    let c = decimal_string(o.2 as i64);
    r.append(c.as_str());
    r
}

fn contains_text(v: &Vec<String>, s: &String) -> (r: bool)
    ensures
        r == v.deep_view().contains(s@),
{
    let mut i: usize = 0;
    while i < v.len()
        invariant
            i <= v.len(),
            forall|j: int| 0 <= j < i ==> v.deep_view()[j] != s@,
        decreases v.len() - i,
    {
        if v[i] == *s {
            assert(v.deep_view()[i as int] == s@);
            return true;
        }
        i = i + 1;
    }
    assert(!v.deep_view().contains(s@));
    false
}

/// The prefixes of this machine's private IPv4 interfaces, each once, in the order in
/// which the interfaces first show them; loopback, public, link-local and IPv6 interfaces
/// contribute nothing.
pub fn local_subnet_prefixes(ifaces: &Vec<NetInterface>) -> (r: Vec<String>)
    ensures
        r.deep_view() == subnet_prefixes(ifaces@),
{
    let mut prefixes: Vec<String> = Vec::new();
    let mut i: usize = 0;
    while i < ifaces.len()
        invariant
            i <= ifaces.len(),
            prefixes.deep_view() == subnet_prefixes(ifaces@.subrange(0, i as int)),
        decreases ifaces.len() - i,
    {
        let iface = ifaces[i];
        assert(ifaces@.subrange(0, i + 1).drop_last() =~= ifaces@.subrange(0, i as int));
        assert(ifaces@.subrange(0, i + 1).last() == iface);
        if !iface.is_loopback {
            match iface.ipv4 {
                Some(o) => {
                    if is_private_ipv4(o) {
                        let p = subnet_prefix(o);
                        if !contains_text(&prefixes, &p) {
                            let ghost before = prefixes.deep_view();
                            prefixes.push(p);
                            assert(prefixes.deep_view() =~= before.push(prefix_text(o)));
                        }
                    }
                },
                None => {},
            }
        }
        i = i + 1;
    }
    assert(ifaces@.subrange(0, ifaces@.len() as int) =~= ifaces@);
    prefixes
}

/// Discovery never lists a prefix twice.
pub proof fn lemma_prefixes_distinct(ifaces: Seq<NetInterface>)
    ensures
        subnet_prefixes(ifaces).no_duplicates(),
    decreases ifaces.len(),
{
    if ifaces.len() > 0 {
        lemma_prefixes_distinct(ifaces.drop_last());
        let prev = subnet_prefixes(ifaces.drop_last());
        match interface_prefix(ifaces.last()) {
            Some(p) => {
                if !prev.contains(p) {
                    assert forall|a: int, b: int|
                        0 <= a < prev.push(p).len() && 0 <= b < prev.push(p).len() && a != b
                        implies prev.push(p)[a] != prev.push(p)[b] by {
                        if a == prev.len() as int {
                            assert(prev.push(p)[b] == prev[b]);
                        } else if b == prev.len() as int {
                            assert(prev.push(p)[a] == prev[a]);
                        }
                    }
                }
            },
            None => {},
        }
    }
}

/// A prefix is listed exactly when some interface contributes it.
pub proof fn lemma_prefixes_complete(ifaces: Seq<NetInterface>, p: Seq<char>)
    ensures
        subnet_prefixes(ifaces).contains(p)
            <==> exists|i: int| 0 <= i < ifaces.len() && interface_prefix(#[trigger] ifaces[i]) == Some(p),
    decreases ifaces.len(),
{
    if ifaces.len() > 0 {
        let init = ifaces.drop_last();
        lemma_prefixes_complete(init, p);
        let prev = subnet_prefixes(init);
        if subnet_prefixes(ifaces).contains(p) {
            if prev.contains(p) {
                let i = choose|i: int| 0 <= i < init.len() && interface_prefix(#[trigger] init[i]) == Some(p);
                assert(ifaces[i] == init[i]);
            } else {
                assert(interface_prefix(ifaces[ifaces.len() - 1]) == Some(p));
            }
        }
        if exists|i: int| 0 <= i < ifaces.len() && interface_prefix(#[trigger] ifaces[i]) == Some(p) {
            let i = choose|i: int| 0 <= i < ifaces.len() && interface_prefix(#[trigger] ifaces[i]) == Some(p);
            if i < ifaces.len() - 1 {
                assert(init[i] == ifaces[i]);
                assert(prev.contains(p));
                match interface_prefix(ifaces.last()) {
                    Some(q) => {
                        if !prev.contains(q) {
                            let k = choose|k: int| 0 <= k < prev.len() && prev[k] == p;
                            assert(prev.push(q)[k] == p);
                        }
                    },
                    None => {},
                }
            } else {
                if !prev.contains(p) {
                    assert(prev.push(p)[prev.len() as int] == p);
                }
            }
        }
    }
}

/// An IPv4 address as the 32-bit number it stands for.
pub open spec fn address_number(o: (u8, u8, u8, u8)) -> int {
    o.0 as int * 16777216 + o.1 as int * 65536 + o.2 as int * 256 + o.3 as int
}

/// The private ranges as address blocks: an address is private exactly when it lies in
/// `10.0.0.0/8` (10.0.0.0 to 10.255.255.255), `172.16.0.0/12` (172.16.0.0 to 172.31.255.255)
/// or `192.168.0.0/16` (192.168.0.0 to 192.168.255.255), whatever its last two octets.
pub proof fn lemma_private_blocks(o: (u8, u8, u8, u8), c: u8, d: u8)
    ensures
        is_private_octets(o) <==> (
            (167772160 <= address_number(o) <= 184549375)
            || (2886729728 <= address_number(o) <= 2887778303)
            || (3232235520 <= address_number(o) <= 3232301055)
        ),
        is_private_octets(o) == is_private_octets((o.0, o.1, c, d)),
        is_private_octets((192, 168, c, d)),
        is_private_octets((10, o.1, c, d)),
        !is_private_octets((169, 254, c, d)),
        !is_private_octets((127, o.1, c, d)),
{
}

/// A non-loopback interface on a private network contributes the prefix made of its first
/// three octets; a loopback interface or an IPv6 one contributes nothing.
pub proof fn lemma_private_interface_contributes(c: u8, d: u8)
    ensures
        interface_prefix(NetInterface { is_loopback: false, ipv4: Some((192, 168, c, d)) })
            == Some(seq!['1', '9', '2', '.', '1', '6', '8', '.'] + decimal_text(c as int)),
        subnet_prefixes(seq![NetInterface { is_loopback: false, ipv4: Some((192, 168, c, d)) }])
            == seq![seq!['1', '9', '2', '.', '1', '6', '8', '.'] + decimal_text(c as int)],
        interface_prefix(NetInterface { is_loopback: true, ipv4: Some((192, 168, c, d)) }) is None,
        interface_prefix(NetInterface { is_loopback: false, ipv4: None }) is None,
{
    reveal_strlit(".");
    reveal_with_fuel(crate::text::digits_of, 3);
    assert(decimal_text(192) =~= seq!['1', '9', '2']);
    assert(decimal_text(168) =~= seq!['1', '6', '8']);
    assert(prefix_text((192, 168, c, d)) =~= seq!['1', '9', '2', '.', '1', '6', '8', '.'] + decimal_text(c as int));
    let one = seq![NetInterface { is_loopback: false, ipv4: Some((192, 168, c, d)) }];
    assert(one.drop_last() =~= Seq::<NetInterface>::empty());
    assert(subnet_prefixes(one.drop_last()) =~= Seq::<Seq<char>>::empty());
}

} // verus!
