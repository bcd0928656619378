use pysocket::address::{decode, encode, SocketAddress, AF_INET, AF_INET6, AF_UNIX, AF_UNSPEC};
use pysocket::target::{
    complete, extract_address, host_plan, sockaddr_tuple, AddrArg, AddrError, Address, ArgItem, HostPlan, InetTarget,
    ResolvedIp, Target,
};

fn tuple(items: Vec<ArgItem>) -> AddrArg {
    AddrArg::Tuple(items)
}

fn s(x: &str) -> ArgItem {
    ArgItem::Str(x.to_string())
}

#[test]
fn ipv4_encodes_to_sockaddr_in() {
    let a = SocketAddress::V4 { ip: [127, 0, 0, 1], port: 8080 };
    let b = encode(&a).unwrap();
    assert_eq!(b, vec![2, 0, 0x1f, 0x90, 127, 0, 0, 1, 0, 0, 0, 0, 0, 0, 0, 0]);
}

#[test]
fn ipv6_encodes_to_sockaddr_in6() {
    let mut ip = [0u8; 16];
    ip[15] = 1;
    let a = SocketAddress::V6 { ip, port: 443, flowinfo: 0x12345, scope_id: 0x0102_0304 };
    let b = encode(&a).unwrap();
    let mut want = vec![10, 0, 0x01, 0xbb, 0x00, 0x01, 0x23, 0x45];
    want.extend_from_slice(&ip);
    want.extend_from_slice(&[4, 3, 2, 1]);
    assert_eq!(b, want);
}

#[test]
fn ipv4_round_trip() {
    let a = SocketAddress::V4 { ip: [10, 1, 2, 3], port: 65535 };
    match decode(&encode(&a).unwrap()).unwrap() {
        SocketAddress::V4 { ip, port } => {
            assert_eq!(ip, [10, 1, 2, 3]);
            assert_eq!(port, 65535);
        }
        other => panic!("unexpected {:?}", other),
    }
}

#[test]
fn ipv6_round_trip() {
    let ip = [0x20, 0x01, 0x0d, 0xb8, 0, 0, 0, 0, 0, 0, 0, 0, 0, 0, 0xab, 0xcd];
    let a = SocketAddress::V6 { ip, port: 1, flowinfo: 0xfffff, scope_id: u32::MAX };
    match decode(&encode(&a).unwrap()).unwrap() {
        SocketAddress::V6 { ip: i, port, flowinfo, scope_id } => {
            assert_eq!(i, ip);
            assert_eq!(port, 1);
            assert_eq!(flowinfo, 0xfffff);
            assert_eq!(scope_id, u32::MAX);
        }
        other => panic!("unexpected {:?}", other),
    }
}

#[test]
fn unix_path_round_trip() {
    let a = SocketAddress::Unix { path: b"/tmp/sock".to_vec() };
    let b = encode(&a).unwrap();
    assert_eq!(b.len(), 2 + 9 + 1);
    assert_eq!(*b.last().unwrap(), 0);
    match decode(&b).unwrap() {
        SocketAddress::Unix { path } => assert_eq!(path, b"/tmp/sock".to_vec()),
        other => panic!("unexpected {:?}", other),
    }
}

#[test]
fn abstract_unix_path_round_trip() {
    let a = SocketAddress::Unix { path: b"\0hidden".to_vec() };
    let b = encode(&a).unwrap();
    assert_eq!(b.len(), 2 + 7);
    match decode(&b).unwrap() {
        SocketAddress::Unix { path } => assert_eq!(path, b"\0hidden".to_vec()),
        other => panic!("unexpected {:?}", other),
    }
}

#[test]
fn unix_path_limits() {
    assert!(encode(&SocketAddress::Unix { path: vec![b'a'; 107] }).is_some());
    assert!(encode(&SocketAddress::Unix { path: vec![b'a'; 108] }).is_none());
    let mut abs = vec![b'a'; 108];
    abs[0] = 0;
    assert!(encode(&SocketAddress::Unix { path: abs.clone() }).is_some());
    abs.push(b'b');
    assert!(encode(&SocketAddress::Unix { path: abs }).is_none());
    assert_eq!(encode(&SocketAddress::Unix { path: vec![] }).unwrap(), vec![1, 0]);
}

#[test]
fn decoded_unix_path_stops_at_its_terminator() {
    match decode(&[1, 0, b'a', b'b', 0, b'z', 0]).unwrap() {
        SocketAddress::Unix { path } => assert_eq!(path, b"ab".to_vec()),
        other => panic!("unexpected {:?}", other),
    }
}

#[test]
fn unsupported_family_decodes_to_placeholder() {
    assert!(decode(&[17, 0, 1, 2, 3, 4]).is_none());
    assert!(decode(&[2, 0, 1]).is_none());
    assert!(decode(&[]).is_none());
}

#[test]
fn ipv6_flowinfo_out_of_range_is_rejected() {
    let arg = tuple(vec![s("::1"), ArgItem::Int(80), ArgItem::Int(0x100000)]);
    assert_eq!(extract_address(AF_INET6, &arg).unwrap_err(), AddrError::FlowInfoRange);
    let arg = tuple(vec![s("::1"), ArgItem::Int(80), ArgItem::Int(-1)]);
    assert_eq!(extract_address(AF_INET6, &arg).unwrap_err(), AddrError::FlowInfoRange);
    let arg = tuple(vec![s("::1"), ArgItem::Int(80), ArgItem::Int(0xfffff)]);
    assert!(extract_address(AF_INET6, &arg).is_ok());
}

#[test]
fn ipv6_tuple_fields() {
    let arg = tuple(vec![s("fe80::1"), ArgItem::Int(22), ArgItem::Int(5), ArgItem::Int(3)]);
    match extract_address(AF_INET6, &arg).unwrap() {
        Target::Resolve(t) => {
            assert_eq!(t.family, AF_INET6);
            assert_eq!(t.host, "fe80::1");
            assert_eq!(t.port, 22);
            assert_eq!(t.flowinfo, 5);
            assert_eq!(t.scope_id, 3);
        }
        other => panic!("unexpected {:?}", other),
    }
    let arg = tuple(vec![s("::"), ArgItem::Int(22)]);
    match extract_address(AF_INET6, &arg).unwrap() {
        Target::Resolve(t) => {
            assert_eq!(t.flowinfo, 0);
            assert_eq!(t.scope_id, 0);
        }
        other => panic!("unexpected {:?}", other),
    }
}

#[test]
fn ipv6_argument_errors() {
    let one = tuple(vec![s("::1")]);
    assert_eq!(extract_address(AF_INET6, &one).unwrap_err(), AddrError::Inet6Shape);
    let five = tuple(vec![s("::1"), ArgItem::Int(1), ArgItem::Int(0), ArgItem::Int(0), ArgItem::Int(0)]);
    assert_eq!(extract_address(AF_INET6, &five).unwrap_err(), AddrError::Inet6Shape);
    let bad_flow = tuple(vec![s("::1"), ArgItem::Int(1), s("x")]);
    assert_eq!(extract_address(AF_INET6, &bad_flow).unwrap_err(), AddrError::FlowInfoNotInt);
    let bad_scope = tuple(vec![s("::1"), ArgItem::Int(1), ArgItem::Int(0), ArgItem::Other]);
    assert_eq!(extract_address(AF_INET6, &bad_scope).unwrap_err(), AddrError::ScopeIdNotInt);
    let big_scope = tuple(vec![s("::1"), ArgItem::Int(1), ArgItem::Int(0), ArgItem::Int(1 << 32)]);
    assert_eq!(extract_address(AF_INET6, &big_scope).unwrap_err(), AddrError::ScopeIdRange);
    assert_eq!(extract_address(AF_INET6, &AddrArg::Other).unwrap_err(), AddrError::NotTuple);
}

#[test]
fn ipv4_argument_checks() {
    let ok = tuple(vec![s("localhost"), ArgItem::Int(65535)]);
    match extract_address(AF_INET, &ok).unwrap() {
        Target::Resolve(t) => {
            assert_eq!(t.family, AF_INET);
            assert_eq!(t.host, "localhost");
            assert_eq!(t.port, 65535);
        }
        other => panic!("unexpected {:?}", other),
    }
    let big = tuple(vec![s("localhost"), ArgItem::Int(65536)]);
    assert_eq!(extract_address(AF_INET, &big).unwrap_err(), AddrError::PortRange);
    let neg = tuple(vec![s("localhost"), ArgItem::Int(-1)]);
    assert_eq!(extract_address(AF_INET, &neg).unwrap_err(), AddrError::PortRange);
    let three = tuple(vec![s("h"), ArgItem::Int(1), ArgItem::Int(2)]);
    assert_eq!(extract_address(AF_INET, &three).unwrap_err(), AddrError::Inet4Shape);
    let host = tuple(vec![ArgItem::Int(1), ArgItem::Int(2)]);
    assert_eq!(extract_address(AF_INET, &host).unwrap_err(), AddrError::HostNotStr);
    let port = tuple(vec![s("h"), s("80")]);
    assert_eq!(extract_address(AF_INET, &port).unwrap_err(), AddrError::PortNotInt);
    assert_eq!(extract_address(AF_INET, &AddrArg::Path(vec![1])).unwrap_err(), AddrError::NotTuple);
}

#[test]
fn unix_argument_checks() {
    match extract_address(AF_UNIX, &AddrArg::Path(b"/run/x".to_vec())).unwrap() {
        Target::Ready(SocketAddress::Unix { path }) => assert_eq!(path, b"/run/x".to_vec()),
        other => panic!("unexpected {:?}", other),
    }
    let long = AddrArg::Path(vec![b'p'; 200]);
    assert_eq!(extract_address(AF_UNIX, &long).unwrap_err(), AddrError::PathTooLong);
    let not_path = tuple(vec![s("h"), ArgItem::Int(1)]);
    assert_eq!(extract_address(AF_UNIX, &not_path).unwrap_err(), AddrError::NotPath);
}

#[test]
fn unknown_family_is_refused() {
    let arg = tuple(vec![s("h"), ArgItem::Int(1)]);
    assert_eq!(extract_address(99, &arg).unwrap_err(), AddrError::BadFamily);
}

#[test]
fn address_from_tuple_and_pair() {
    let items = vec![s("example.org"), ArgItem::Int(25)];
    let a = Address::from_tuple(&items).unwrap();
    assert_eq!(a.host, "example.org");
    assert_eq!(a.port, 25);
    let (a, f, sc) = Address::from_tuple_ipv6(&items).unwrap();
    assert_eq!((a.port, f, sc), (25, 0, 0));
    assert_eq!(Address::try_from_arg(&AddrArg::Other).unwrap_err(), AddrError::NotTuple);
    let three = tuple(vec![s("h"), ArgItem::Int(1), ArgItem::Int(2)]);
    assert_eq!(Address::try_from_arg(&three).unwrap_err(), AddrError::Inet4Shape);
    assert_eq!(Address::try_from_arg(&tuple(items)).unwrap().port, 25);
}

#[test]
fn host_plans() {
    assert!(matches!(host_plan("", AF_INET), Ok(HostPlan::Wildcard)));
    assert!(matches!(host_plan("", AF_INET6), Ok(HostPlan::Wildcard)));
    match host_plan("<broadcast>", AF_INET).unwrap() {
        HostPlan::Fixed(ResolvedIp::V4(ip)) => assert_eq!(ip, [255, 255, 255, 255]),
        other => panic!("unexpected {:?}", other),
    }
    assert!(matches!(host_plan("255.255.255.255", AF_UNSPEC), Ok(HostPlan::Fixed(_))));
    assert_eq!(host_plan("<broadcast>", AF_INET6).unwrap_err(), AddrError::FamilyMismatch);
    assert!(matches!(
        host_plan("10.0.0.1", AF_INET),
        Ok(HostPlan::Lookup { numeric_v4: true, numeric_v6: true })
    ));
    assert!(matches!(
        host_plan("fe80::1%eth0", AF_UNSPEC),
        Ok(HostPlan::Lookup { numeric_v4: true, numeric_v6: false })
    ));
    assert!(matches!(
        host_plan("::1", AF_INET6),
        Ok(HostPlan::Lookup { numeric_v4: false, numeric_v6: false })
    ));
}

#[test]
fn completing_a_target() {
    let t = InetTarget { family: AF_INET, host: "h".to_string(), port: 80, flowinfo: 0, scope_id: 0 };
    match complete(&t, ResolvedIp::V4([1, 2, 3, 4])).unwrap() {
        SocketAddress::V4 { ip, port } => assert_eq!((ip, port), ([1, 2, 3, 4], 80)),
        other => panic!("unexpected {:?}", other),
    }
    assert_eq!(complete(&t, ResolvedIp::V6([0; 16])).unwrap_err(), AddrError::FamilyMismatch);
    let t6 = InetTarget { family: AF_INET6, host: "h".to_string(), port: 8, flowinfo: 9, scope_id: 2 };
    match complete(&t6, ResolvedIp::V6([1; 16])).unwrap() {
        SocketAddress::V6 { ip, port, flowinfo, scope_id } => {
            assert_eq!((ip, port, flowinfo, scope_id), ([1; 16], 8, 9, 2))
        }
        other => panic!("unexpected {:?}", other),
    }
    assert_eq!(complete(&t6, ResolvedIp::V4([1; 4])).unwrap_err(), AddrError::FamilyMismatch);
    let odd = InetTarget { family: 5, host: "h".to_string(), port: 8, flowinfo: 0, scope_id: 0 };
    assert_eq!(complete(&odd, ResolvedIp::V4([1; 4])).unwrap_err(), AddrError::BadFamily);
}

#[test]
fn sockaddr_tuple_shapes() {
    assert_eq!(sockaddr_tuple(&vec![s("h")]).unwrap_err(), AddrError::Inet6Shape);
    let (a, f, sc) = sockaddr_tuple(&vec![s("::1"), ArgItem::Int(80), ArgItem::Int(3), ArgItem::Int(4)]).unwrap();
    assert_eq!((a.host.as_str(), a.port, f, sc), ("::1", 80, 3, 4));
    let bad = vec![s("::1"), ArgItem::Int(80), ArgItem::Int(0x100000)];
    assert_eq!(sockaddr_tuple(&bad).unwrap_err(), AddrError::FlowInfoRange);
}
