//! The providers of the echo service and the attempts made against them.
use vstd::prelude::*;

use crate::addr::{IpAddr, Ipv4Addr, Ipv6Addr};
use crate::answer::QueryMethod;
use crate::AddrVersion;

verus! {

/// The usual port of a DNS server.
pub const DEFAULT_DNS_PORT: u16 = 53;

/// The DNS class that a query asks in.
#[derive(Debug, Clone, Copy, PartialEq, Eq, Hash)]
pub enum QueryClass {
    /// The Internet class.
    IN,
    /// The CHAOS class.
    CH,
}

/// A provider of the echo service: the name to ask for, the servers that
/// answer for it, and how to ask.
#[derive(Debug, Clone)]
pub struct Resolver {
    pub port: u16,
    pub name: &'static str,
    pub servers: Vec<IpAddr>,
    pub method: QueryMethod,
    pub query_class: QueryClass,
}

/// One query to make: a provider's question sent to one of its servers.
#[derive(Debug, Clone, Copy)]
pub struct Attempt {
    pub name: &'static str,
    pub server: IpAddr,
    pub port: u16,
    pub method: QueryMethod,
    pub query_class: QueryClass,
}

impl Resolver {
    /// The attempt that asks `server` this provider's question.
    pub open spec fn attempt_to(self, server: IpAddr) -> Attempt {
        Attempt {
            name: self.name,
            server,
            port: self.port,
            method: self.method,
            query_class: self.query_class,
        }
    }

    /// The attempts on those of `servers` that `version` accepts, in order.
    pub open spec fn attempts_on(self, servers: Seq<IpAddr>, version: AddrVersion) -> Seq<Attempt>
        decreases servers.len(),
    {
        if servers.len() == 0 {
            Seq::empty()
        } else {
            let rest = self.attempts_on(servers.drop_last(), version);
            if version.accepts(servers.last()) {
                rest.push(self.attempt_to(servers.last()))
            } else {
                rest
            }
        }
    }

    /// The attempts that resolving `version` makes against this provider.
    pub open spec fn attempts(self, version: AddrVersion) -> Seq<Attempt> {
        self.attempts_on(self.servers@, version)
    }

    /// The attempts that resolving `version` makes against this provider:
    /// one for each of its servers whose family `version` accepts, in the
    /// order of the server list.
    pub fn resolve(&self, version: AddrVersion) -> (r: Vec<Attempt>)
        ensures
            r@ == self.attempts(version),
    {
        let mut r: Vec<Attempt> = Vec::new();
        let mut i: usize = 0;
        while i < self.servers.len()
            invariant
                i <= self.servers@.len(),
                r@ == self.attempts_on(self.servers@.take(i as int), version),
            decreases self.servers@.len() - i,
        {
            let server = self.servers[i];
            assert(self.servers@.take(i + 1).drop_last() =~= self.servers@.take(i as int));
            if version.matches(server) {
                r.push(
                    Attempt {
                        name: self.name,
                        server,
                        port: self.port,
                        method: self.method,
                        query_class: self.query_class,
                    },
                );
            }
            i = i + 1;
        }
        assert(self.servers@.take(i as int) =~= self.servers@);
        r
    }
}

/// The attempts that resolving `version` makes against `providers`: those of
/// each provider in turn.
pub open spec fn plan(providers: Seq<Resolver>, version: AddrVersion) -> Seq<Attempt>
    decreases providers.len(),
{
    if providers.len() == 0 {
        Seq::empty()
    } else {
        plan(providers.drop_last(), version) + providers.last().attempts(version)
    }
}

/// The attempts that resolving `version` makes against `providers`.
pub fn plan_of(providers: &Vec<Resolver>, version: AddrVersion) -> (r: Vec<Attempt>)
    ensures
        r@ == plan(providers@, version),
{
    let mut r: Vec<Attempt> = Vec::new();
    let mut i: usize = 0;
    while i < providers.len()
        invariant
            i <= providers@.len(),
            r@ == plan(providers@.take(i as int), version),
        decreases providers@.len() - i,
    {
        let mut more = providers[i].resolve(version);
        assert(providers@.take(i + 1).drop_last() =~= providers@.take(i as int));
        r.append(&mut more);
        i = i + 1;
    }
    assert(providers@.take(i as int) =~= providers@);
    r
}

/// Whether every server of `r` is of the IPv6 family when `v6` holds, and of
/// the IPv4 family when it does not.
pub open spec fn single_family(r: Resolver, v6: bool) -> bool {
    forall|j: int| 0 <= j < r.servers@.len() ==> (#[trigger] r.servers@[j] is V6) == v6
}

/// The shape of the provider table: three providers, each first with its
/// IPv4 servers and then with its IPv6 servers, all on the usual port; the
/// first asked by `A` and `AAAA` records, the others by `TXT` records, the
/// last in the CHAOS class; and the name that each one asks for.
pub open spec fn is_catalog(ps: Seq<Resolver>) -> bool {
    &&& ps.len() == 6
    &&& forall|i: int|
        0 <= i < 6 ==> {
            &&& (#[trigger] ps[i]).port == DEFAULT_DNS_PORT
            &&& ps[i].servers@.len() > 0
            &&& single_family(ps[i], i % 2 == 1)
            &&& ps[i].query_class == if i < 4 {
                QueryClass::IN
            } else {
                QueryClass::CH
            }
        }
    &&& ps[0].method == QueryMethod::A
    &&& ps[1].method == QueryMethod::AAAA
    &&& forall|i: int| 2 <= i < 6 ==> (#[trigger] ps[i]).method == QueryMethod::TXT
    &&& ps[0].name@ == "myip.opendns.com"@ && ps[1].name@ == "myip.opendns.com"@
    &&& ps[2].name@ == "o-o.myaddr.l.google.com"@ && ps[3].name@ == "o-o.myaddr.l.google.com"@
    &&& ps[4].name@ == "whoami.cloudflare"@ && ps[5].name@ == "whoami.cloudflare"@
}

fn v4(a: u8, b: u8, c: u8, d: u8) -> (r: IpAddr)
    ensures
        r is V4,
{
    IpAddr::V4(Ipv4Addr { octets: [a, b, c, d] })
}

fn v6(octets: [u8; 16]) -> (r: IpAddr)
    ensures
        r is V6,
{
    IpAddr::V6(Ipv6Addr { octets })
}

fn provider(
    name: &'static str,
    servers: Vec<IpAddr>,
    method: QueryMethod,
    query_class: QueryClass,
) -> (r: Resolver)
    ensures
        r == (Resolver { port: DEFAULT_DNS_PORT, name, servers, method, query_class }),
{
    Resolver { port: DEFAULT_DNS_PORT, name, servers, method, query_class }
}

/// The providers, in the order in which they are asked.
pub fn all() -> (r: Vec<Resolver>)
    ensures
        is_catalog(r@),
{
    let opendns = "myip.opendns.com";
    let google = "o-o.myaddr.l.google.com";
    let cloudflare = "whoami.cloudflare";
    let mut r: Vec<Resolver> = Vec::new();
    r.push(
        provider(
            opendns,
            vec![
                v4(208, 67, 222, 222),
                v4(208, 67, 220, 220),
                v4(208, 67, 222, 220),
                v4(208, 67, 220, 222),
            ],
            QueryMethod::A,
            QueryClass::IN,
        ),
    );
    r.push(
        provider(
            opendns,
            vec![
                // 2620:0:ccc::2
                v6([0x26, 0x20, 0, 0, 0x0c, 0xcc, 0, 0, 0, 0, 0, 0, 0, 0, 0, 0x02]),
                // 2620:0:ccd::2
                v6([0x26, 0x20, 0, 0, 0x0c, 0xcd, 0, 0, 0, 0, 0, 0, 0, 0, 0, 0x02]),
            ],
            QueryMethod::AAAA,
            QueryClass::IN,
        ),
    );
    r.push(
        provider(
            google,
            vec![
                v4(216, 239, 32, 10),
                v4(216, 239, 34, 10),
                v4(216, 239, 36, 10),
                v4(216, 239, 38, 10),
            ],
            QueryMethod::TXT,
            QueryClass::IN,
        ),
    );
    r.push(
        provider(
            google,
            vec![
                // 2001:4860:4802:32::a
                v6([0x20, 0x01, 0x48, 0x60, 0x48, 0x02, 0, 0x32, 0, 0, 0, 0, 0, 0, 0, 0x0a]),
                // 2001:4860:4802:34::a
                v6([0x20, 0x01, 0x48, 0x60, 0x48, 0x02, 0, 0x34, 0, 0, 0, 0, 0, 0, 0, 0x0a]),
                // 2001:4860:4802:36::a
                v6([0x20, 0x01, 0x48, 0x60, 0x48, 0x02, 0, 0x36, 0, 0, 0, 0, 0, 0, 0, 0x0a]),
                // 2001:4860:4802:38::a
                v6([0x20, 0x01, 0x48, 0x60, 0x48, 0x02, 0, 0x38, 0, 0, 0, 0, 0, 0, 0, 0x0a]),
            ],
            QueryMethod::TXT,
            QueryClass::IN,
        ),
    );
    r.push(
        provider(
            cloudflare,
            vec![v4(1, 1, 1, 1), v4(1, 0, 0, 1)],
            QueryMethod::TXT,
            QueryClass::CH,
        ),
    );
    r.push(
        provider(
            cloudflare,
            vec![
                // 2606:4700:4700::1111
                v6([0x26, 0x06, 0x47, 0, 0x47, 0, 0, 0, 0, 0, 0, 0, 0, 0, 0x11, 0x11]),
                // 2606:4700:4700::1001
                v6([0x26, 0x06, 0x47, 0, 0x47, 0, 0, 0, 0, 0, 0, 0, 0, 0, 0x10, 0x01]),
            ],
            QueryMethod::TXT,
            QueryClass::CH,
        ),
    );
    r
}

} // verus!
