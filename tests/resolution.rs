use hickory_client::proto::ProtoError;
use public_ip::{
    all, parse_answer, resolve, AddrVersion, Attempt, Error, IpAddr, Ipv4Addr, Ipv6Addr,
    QueryClass, QueryMethod, RecordData, Resolution, Resolver,
};

fn v4(a: u8, b: u8, c: u8, d: u8) -> IpAddr {
    IpAddr::V4(Ipv4Addr::new(a, b, c, d))
}

fn v6(last: u8) -> IpAddr {
    let mut octets = [0u8; 16];
    octets[0] = 0x20;
    octets[1] = 0x01;
    octets[2] = 0x0d;
    octets[3] = 0xb8;
    octets[15] = last;
    IpAddr::V6(Ipv6Addr { octets })
}

fn txt(chunks: &[&[u8]]) -> Vec<RecordData> {
    vec![RecordData::TXT(chunks.iter().map(|c| c.to_vec()).collect())]
}

fn provider(servers: Vec<IpAddr>, method: QueryMethod) -> Resolver {
    Resolver {
        port: 53,
        name: "echo.example",
        servers,
        method,
        query_class: QueryClass::IN,
    }
}

fn fail(msg: &'static str) -> Result<Vec<RecordData>, ProtoError> {
    Err(ProtoError::from(msg))
}

#[test]
fn matches_by_family() {
    assert!(AddrVersion::Any.matches(v4(1, 2, 3, 4)));
    assert!(AddrVersion::Any.matches(v6(1)));
    assert!(AddrVersion::V4.matches(v4(1, 2, 3, 4)));
    assert!(!AddrVersion::V4.matches(v6(1)));
    assert!(AddrVersion::V6.matches(v6(1)));
    assert!(!AddrVersion::V6.matches(v4(1, 2, 3, 4)));
}

#[test]
fn a_record_is_taken_verbatim() {
    let answers = vec![RecordData::A([93, 184, 216, 34])];
    let r = parse_answer(&answers, QueryMethod::A).unwrap();
    assert_eq!(r, v4(93, 184, 216, 34));
}

#[test]
fn aaaa_record_is_taken_verbatim() {
    let octets = [
        0x26, 0x06, 0x47, 0x00, 0x47, 0x00, 0, 0, 0, 0, 0, 0, 0, 0, 0x11, 0x11,
    ];
    let answers = vec![RecordData::AAAA(octets)];
    let r = parse_answer(&answers, QueryMethod::AAAA).unwrap();
    assert_eq!(r, IpAddr::V6(Ipv6Addr { octets }));
}

#[test]
fn txt_ipv4_literal() {
    let r = parse_answer(&txt(&[b"203.0.113.5"]), QueryMethod::TXT).unwrap();
    assert_eq!(r, v4(203, 0, 113, 5));
}

#[test]
fn txt_ipv6_literal() {
    let r = parse_answer(&txt(&[b"2001:db8::7"]), QueryMethod::TXT).unwrap();
    assert_eq!(r, v6(7));
}

#[test]
fn txt_only_first_chunk_counts() {
    let r = parse_answer(&txt(&[b"198.51.100.1", b"203.0.113.5"]), QueryMethod::TXT).unwrap();
    assert_eq!(r, v4(198, 51, 100, 1));
    let r = parse_answer(&txt(&[b"junk", b"203.0.113.5"]), QueryMethod::TXT);
    assert!(matches!(r, Err(Error::Addr)));
}

#[test]
fn txt_invalid_utf8_fails() {
    let r = parse_answer(&txt(&[&[0xff, 0xfe, 0x31]]), QueryMethod::TXT);
    assert!(matches!(r, Err(Error::Addr)));
}

#[test]
fn txt_not_an_address_fails() {
    let r = parse_answer(&txt(&[b"203.0.113"]), QueryMethod::TXT);
    assert!(matches!(r, Err(Error::Addr)));
    let r = parse_answer(&txt(&[b"hello"]), QueryMethod::TXT);
    assert!(matches!(r, Err(Error::Addr)));
}

#[test]
fn txt_without_chunks_fails() {
    let r = parse_answer(&txt(&[]), QueryMethod::TXT);
    assert!(matches!(r, Err(Error::Addr)));
}

#[test]
fn no_answer_fails() {
    let r = parse_answer(&vec![], QueryMethod::A);
    assert!(matches!(r, Err(Error::Addr)));
}

#[test]
fn wrong_record_type_fails() {
    let answers = vec![RecordData::A([1, 2, 3, 4])];
    assert!(matches!(parse_answer(&answers, QueryMethod::TXT), Err(Error::Addr)));
    assert!(matches!(parse_answer(&answers, QueryMethod::AAAA), Err(Error::Addr)));
    let answers = vec![RecordData::Other, RecordData::A([1, 2, 3, 4])];
    assert!(matches!(parse_answer(&answers, QueryMethod::A), Err(Error::Addr)));
}

#[test]
fn later_records_are_ignored() {
    let answers = vec![RecordData::A([1, 2, 3, 4]), RecordData::A([5, 6, 7, 8])];
    assert_eq!(parse_answer(&answers, QueryMethod::A).unwrap(), v4(1, 2, 3, 4));
}

#[test]
fn catalog_shape() {
    let ps = all();
    assert_eq!(ps.len(), 6);
    for (i, p) in ps.iter().enumerate() {
        assert_eq!(p.port, 53);
        assert!(!p.servers.is_empty());
        for s in &p.servers {
            assert_eq!(s.is_ipv6(), i % 2 == 1);
        }
    }
    assert_eq!(ps[0].method, QueryMethod::A);
    assert_eq!(ps[1].method, QueryMethod::AAAA);
    assert_eq!(ps[4].query_class, QueryClass::CH);
    assert_eq!(ps[0].servers[0], v4(208, 67, 222, 222));
}

#[test]
fn provider_attempts_are_filtered() {
    let p = provider(vec![v4(10, 0, 0, 1), v6(1), v4(10, 0, 0, 2)], QueryMethod::TXT);
    let a: Vec<Attempt> = p.resolve(AddrVersion::V4);
    assert_eq!(a.len(), 2);
    assert_eq!(a[0].server, v4(10, 0, 0, 1));
    assert_eq!(a[1].server, v4(10, 0, 0, 2));
    assert_eq!(a[1].method, QueryMethod::TXT);
    assert_eq!(p.resolve(AddrVersion::V6).len(), 1);
    assert_eq!(p.resolve(AddrVersion::Any).len(), 3);
}

#[test]
fn resolve_v4_plans_only_ipv4_servers() {
    let res = resolve(AddrVersion::V4);
    let first = res.next_attempt().unwrap();
    assert_eq!(first.server, v4(208, 67, 222, 222));
    assert_eq!(first.method, QueryMethod::A);
    assert_eq!(first.port, 53);
    assert_eq!(first.name, "myip.opendns.com");
}

#[test]
fn nothing_to_ask_gives_addr_error() {
    let ps = vec![provider(vec![v6(1)], QueryMethod::AAAA)];
    let res = Resolution::new(&ps, AddrVersion::V4);
    assert!(res.next_attempt().is_none());
    assert!(matches!(res.finish(), Err(Error::Addr)));
}

#[test]
fn first_match_stops() {
    let ps = vec![
        provider(vec![v4(10, 0, 0, 1), v4(10, 0, 0, 2)], QueryMethod::A),
        provider(vec![v4(10, 0, 0, 3)], QueryMethod::A),
    ];
    let mut res = Resolution::new(&ps, AddrVersion::Any);
    assert_eq!(res.next_attempt().unwrap().server, v4(10, 0, 0, 1));
    let d = res.record(Ok(vec![RecordData::A([203, 0, 113, 9])]));
    assert_eq!(d.unwrap().unwrap(), v4(203, 0, 113, 9));
}

#[test]
fn mismatch_is_fatal() {
    let ps = vec![
        provider(vec![v4(10, 0, 0, 1)], QueryMethod::AAAA),
        provider(vec![v4(10, 0, 0, 2)], QueryMethod::A),
    ];
    let mut res = Resolution::new(&ps, AddrVersion::V4);
    let d = res.record(Ok(vec![RecordData::AAAA([1; 16])]));
    assert!(matches!(d, Some(Err(Error::Version))));
}

#[test]
fn parse_failure_moves_on() {
    let ps = vec![provider(vec![v4(10, 0, 0, 1), v4(10, 0, 0, 2)], QueryMethod::TXT)];
    let mut res = Resolution::new(&ps, AddrVersion::V4);
    assert!(res.record(Ok(txt(&[b"not an address"]))).is_none());
    assert_eq!(res.next_attempt().unwrap().server, v4(10, 0, 0, 2));
    let d = res.record(Ok(txt(&[b"203.0.113.5"])));
    assert_eq!(d.unwrap().unwrap(), v4(203, 0, 113, 5));
}

#[test]
fn all_transport_failures_give_the_last() {
    let ps = vec![
        provider(vec![v4(10, 0, 0, 1)], QueryMethod::A),
        provider(vec![v4(10, 0, 0, 2)], QueryMethod::A),
    ];
    let mut res = Resolution::new(&ps, AddrVersion::V4);
    assert!(res.record(fail("first")).is_none());
    assert!(res.record(fail("second")).is_none());
    assert!(res.next_attempt().is_none());
    match res.finish() {
        Err(Error::Dns(e)) => assert_eq!(e.to_string(), "second"),
        _ => panic!("expected the last DNS error"),
    }
}

#[test]
fn last_error_may_be_a_parse_failure() {
    let ps = vec![provider(vec![v4(10, 0, 0, 1), v4(10, 0, 0, 2)], QueryMethod::A)];
    let mut res = Resolution::new(&ps, AddrVersion::V4);
    assert!(res.record(fail("timeout")).is_none());
    assert!(res.record(Ok(vec![])).is_none());
    assert!(matches!(res.finish(), Err(Error::Addr)));
}
