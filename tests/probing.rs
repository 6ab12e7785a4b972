use ping_exporter::config::{
    option_field, resolve, ConfigError, Defaults, IpAddress, OptionField, Options, OptionsDraft,
};
use ping_exporter::metrics::{Metrics, Outcome};
use ping_exporter::pool::{ClientKey, ClientPool, Interface, SockType, SocketAddress};
use ping_exporter::render::{push_decimal, push_seconds, render, MetricsEntry};
use ping_exporter::schedule::{next_sequence, Dispatch, ProbeState, DEFAULT_INTERVAL_NANOS};

fn entry(ip: &str, netns: Option<&str>, total: u64, ok: u64, nanos: u64) -> MetricsEntry {
    MetricsEntry {
        ip: ip.to_string(),
        netns: netns.map(|s| s.to_string()),
        metrics: Metrics { total_pings: total, successful_pings: ok, success_nanos: nanos },
    }
}

fn seconds(nanos: u64) -> String {
    let mut s = String::new();
    push_seconds(&mut s, nanos);
    s
}

fn key(netns: Option<&str>, ttl: Option<u32>, v6: bool) -> ClientKey {
    ClientKey {
        iface: Some(Interface::Name("eth0".to_string())),
        netns: netns.map(|s| s.to_string()),
        ttl,
        sock_type: SockType::Dgram,
        v6,
    }
}

fn no_defaults() -> Defaults {
    Defaults {
        iface: None,
        netns: None,
        ttl: None,
        sock_type: None,
        interval_nanos: None,
        timeout_nanos: None,
    }
}

#[test]
fn render_example_lines() {
    let out = render(&vec![entry("192.0.2.1", None, 5, 4, 42_000_000)]);
    assert!(out.contains("total_pings{ip=\"192.0.2.1\",netns=\"\"} 5\n"));
    assert!(out.contains("successful_pings{ip=\"192.0.2.1\",netns=\"\"} 4\n"));
    assert!(out.contains("successful_ping_wait_sum{ip=\"192.0.2.1\",netns=\"\"} 0.042\n"));
    assert_eq!(
        out,
        "total_pings{ip=\"192.0.2.1\",netns=\"\"} 5\n\
         successful_pings{ip=\"192.0.2.1\",netns=\"\"} 4\n\
         successful_ping_wait_sum{ip=\"192.0.2.1\",netns=\"\"} 0.042\n\n"
    );
}

#[test]
fn render_namespace_and_groups() {
    let out = render(&vec![
        entry("10.0.0.1", Some("blue"), 3, 0, 0),
        entry("10.0.0.2", None, 0, 0, 0),
        entry("2001:db8::1", None, 12, 12, 1_500_000_000),
    ]);
    assert_eq!(
        out,
        "total_pings{ip=\"10.0.0.1\",netns=\"blue\"} 3\n\
         successful_pings{ip=\"10.0.0.1\",netns=\"blue\"} 0\n\
         successful_ping_wait_sum{ip=\"10.0.0.1\",netns=\"blue\"} 0\n\n\
         total_pings{ip=\"2001:db8::1\",netns=\"\"} 12\n\
         successful_pings{ip=\"2001:db8::1\",netns=\"\"} 12\n\
         successful_ping_wait_sum{ip=\"2001:db8::1\",netns=\"\"} 1.5\n\n"
    );
}

#[test]
fn render_empty_snapshot() {
    assert_eq!(render(&vec![]), "");
}

#[test]
fn seconds_text_values() {
    assert_eq!(seconds(0), "0");
    assert_eq!(seconds(42_000_000), "0.042");
    assert_eq!(seconds(1_000_000_000), "1");
    assert_eq!(seconds(1_500_000_000), "1.5");
    assert_eq!(seconds(1), "0.000000001");
    assert_eq!(seconds(12_345_678_900), "12.3456789");
}

#[test]
fn decimal_text_values() {
    let mut s = String::from("n=");
    push_decimal(&mut s, 0);
    assert_eq!(s, "n=0");
    let mut s = String::new();
    push_decimal(&mut s, u64::MAX);
    assert_eq!(s, "18446744073709551615");
    let mut s = String::new();
    push_decimal(&mut s, 1020);
    assert_eq!(s, "1020");
}

#[test]
fn success_never_exceeds_total() {
    let mut m = Metrics::new();
    let outcomes = [
        Outcome::Success { nanos: 10 },
        Outcome::Failure,
        Outcome::Success { nanos: 5 },
        Outcome::Failure,
        Outcome::Failure,
    ];
    for o in outcomes {
        m.record(o);
        assert!(m.successful_pings <= m.total_pings);
    }
    assert_eq!(m.total_pings, 5);
    assert_eq!(m.successful_pings, 2);
    assert_eq!(m.success_nanos, 15);
}

#[test]
fn duration_grows_only_with_success() {
    let mut m = Metrics::new();
    m.record(Outcome::Success { nanos: 7 });
    let before = m;
    m.record(Outcome::Failure);
    assert_eq!(m.success_nanos, before.success_nanos);
    assert_eq!(m.successful_pings, before.successful_pings);
    m.record(Outcome::Success { nanos: 3 });
    assert_eq!(m.success_nanos, 10);
    assert_eq!(m.successful_pings, before.successful_pings + 1);
}

#[test]
fn timeout_counts_attempt_only() {
    let mut m = Metrics { total_pings: 4, successful_pings: 3, success_nanos: 900 };
    m.record(Outcome::Failure);
    assert_eq!(m.total_pings, 5);
    assert_eq!(m.successful_pings, 3);
    assert_eq!(m.success_nanos, 900);
}

#[test]
fn timeouts_do_not_stop_ticks() {
    let mut st = ProbeState::start(0, Some(200_000_000), 0);
    let mut m = Metrics::new();
    for _ in 0..10 {
        st.tick(None);
        m.record(Outcome::Failure);
    }
    assert_eq!(st.ticks, 10);
    assert_eq!(m.total_pings, 10);
    assert_eq!(m.successful_pings, 0);
}

#[test]
fn interleaved_records_lose_nothing() {
    let k: u64 = 8;
    let per: u64 = 250;
    let mut shared = Metrics::new();
    let mut left = vec![per; k as usize];
    let mut turn: usize = 0;
    let mut remaining = k * per;
    while remaining > 0 {
        turn = (turn + 3 + (remaining % 2) as usize * 2) % k as usize;
        if left[turn] > 0 {
            left[turn] -= 1;
            let o = if (remaining % 3) == 0 { Outcome::Failure } else { Outcome::Success { nanos: 1 } };
            shared.merge(Metrics::from_outcome(o));
            remaining -= 1;
        }
    }
    assert_eq!(shared.total_pings, k * per);
    assert!(shared.successful_pings <= shared.total_pings);
}

#[test]
fn merge_adds_fields() {
    let mut a = Metrics { total_pings: 2, successful_pings: 1, success_nanos: 40 };
    a.merge(Metrics { total_pings: 3, successful_pings: 3, success_nanos: 2 });
    assert_eq!((a.total_pings, a.successful_pings, a.success_nanos), (5, 4, 42));
    let f = Metrics::from_outcome(Outcome::Success { nanos: 9 });
    assert_eq!((f.total_pings, f.successful_pings, f.success_nanos), (1, 1, 9));
}

#[test]
fn has_room_at_limits() {
    let full = Metrics { total_pings: u64::MAX, successful_pings: 0, success_nanos: 0 };
    assert!(!full.has_room(Outcome::Failure));
    let nanos_full = Metrics { total_pings: 1, successful_pings: 1, success_nanos: u64::MAX - 1 };
    assert!(nanos_full.has_room(Outcome::Success { nanos: 1 }));
    assert!(!nanos_full.has_room(Outcome::Success { nanos: 2 }));
    assert!(Metrics::new().has_room(Outcome::Failure));
}

#[test]
fn sequence_wraps_after_full_turn() {
    assert_eq!(next_sequence(65535), 0);
    assert_eq!(next_sequence(41), 42);
    let mut id: u16 = 0;
    for _ in 0..65536u32 {
        id = next_sequence(id);
    }
    assert_eq!(id, 0);
}

#[test]
fn deadlines_do_not_drift() {
    let interval: u64 = 200_000_000;
    let origin: u64 = 5_000;
    let mut st = ProbeState::start(origin, Some(interval), 3);
    for i in 0..100u64 {
        // exchanges of up to 150ms: every other one is still out at the next tick
        let slot = if i % 2 == 0 { None } else { Some(i as u16) };
        st.tick(slot);
        assert_eq!(st.deadline, origin + (i + 1) * interval);
    }
    assert_eq!(st.deadline - origin, 100 * interval);
}

#[test]
fn default_interval_is_one_second() {
    let st = ProbeState::start(0, None, 0);
    assert_eq!(st.interval, DEFAULT_INTERVAL_NANOS);
    assert_eq!(st.interval, 1_000_000_000);
}

#[test]
fn tick_reuses_or_makes_pinger() {
    let mut st = ProbeState::start(0, Some(10), 65535);
    match st.tick(None) {
        Dispatch::Fresh { ident } => assert_eq!(ident, 65535),
        Dispatch::Reuse { .. } => panic!("nothing was returned"),
    }
    assert_eq!(st.next_ident, 0);
    match st.tick(Some(17)) {
        Dispatch::Reuse { seq } => assert_eq!(seq, 17),
        Dispatch::Fresh { .. } => panic!("a pinger was returned"),
    }
    assert_eq!(st.next_ident, 0);
    assert!(st.has_next_tick());
    let mut last = ProbeState::start(u64::MAX - 10, Some(10), 0);
    assert!(last.has_next_tick());
    last.tick(None);
    assert!(!last.has_next_tick());
}

#[test]
fn equal_keys_share_one_client() {
    let mut pool = ClientPool::new();
    let targets = vec![
        key(None, Some(64), false),
        key(Some("blue"), Some(64), false),
        key(None, Some(64), false),
        key(None, Some(64), true),
        key(Some("blue"), Some(64), false),
        key(None, None, false),
    ];
    let mut slots = Vec::new();
    let mut made = 0;
    for k in targets {
        let (slot, created) = pool.acquire(k);
        if created {
            made += 1;
        }
        slots.push(slot);
    }
    assert_eq!(slots, vec![0, 1, 0, 2, 1, 3]);
    assert_eq!(made, 4);
    assert_eq!(pool.len(), 4);
    assert!(pool.key(1).same(&key(Some("blue"), Some(64), false)));
}

#[test]
fn key_equality_is_structural() {
    let a = key(Some("red"), Some(1), false);
    assert!(a.same(&key(Some("red"), Some(1), false)));
    assert!(!a.same(&key(Some("red"), Some(2), false)));
    assert!(!a.same(&key(None, Some(1), false)));
    let bound = ClientKey {
        iface: Some(Interface::Addr(SocketAddress::V4 { ip: 0x0a000001, port: 0 })),
        netns: None,
        ttl: None,
        sock_type: SockType::Raw,
        v6: false,
    };
    assert!(!bound.same(&key(None, None, false)));
    assert!(bound.same(&bound.clone()));
    assert!(a.needs_namespace());
    assert!(!bound.needs_namespace());
}

#[test]
fn resolve_precedence() {
    let file = Defaults {
        iface: Some(Interface::Name("file0".to_string())),
        netns: Some("filens".to_string()),
        ttl: Some(10),
        sock_type: None,
        interval_nanos: Some(2_000_000_000),
        timeout_nanos: None,
    };
    let cli = Defaults {
        iface: Some(Interface::Name("cli0".to_string())),
        netns: Some("clins".to_string()),
        ttl: Some(20),
        sock_type: Some(SockType::Raw),
        interval_nanos: Some(3_000_000_000),
        timeout_nanos: Some(500_000_000),
    };
    let mut own = Options::bare(IpAddress::V4(0xc0000201));
    own.ttl = Some(5);
    let spec = resolve(&own, &file, &cli);
    assert_eq!(spec.ttl, Some(5));
    assert!(matches!(spec.iface, Some(Interface::Name(ref n)) if n == "file0"));
    assert_eq!(spec.netns.as_deref(), Some("filens"));
    assert_eq!(spec.sock_type, SockType::Raw);
    assert_eq!(spec.interval_nanos, Some(2_000_000_000));
    assert_eq!(spec.timeout_nanos, Some(500_000_000));

    own.netns = Some(None);
    let spec = resolve(&own, &file, &cli);
    assert_eq!(spec.netns, None);

    let spec = resolve(&Options::bare(IpAddress::V6(1)), &no_defaults(), &no_defaults());
    assert_eq!(spec.sock_type, SockType::Dgram);
    assert_eq!(spec.ttl, None);
    assert!(spec.client_key().v6);
    assert!(!resolve(&own, &file, &cli).client_key().v6);
}

#[test]
fn option_fields_and_missing_target() {
    assert_eq!(option_field(&"target".to_string()), Ok(OptionField::Target));
    assert_eq!(option_field(&"interface".to_string()), Ok(OptionField::Interface));
    assert_eq!(option_field(&"ttl".to_string()), Ok(OptionField::Ttl));
    assert_eq!(option_field(&"timeout".to_string()), Ok(OptionField::Timeout));
    assert_eq!(option_field(&"interval".to_string()), Ok(OptionField::Interval));
    assert_eq!(option_field(&"netns".to_string()), Ok(OptionField::Netns));
    assert_eq!(option_field(&"targets".to_string()), Err(ConfigError::UnknownField));

    let draft = OptionsDraft::new();
    assert_eq!(draft.finish().err(), Some(ConfigError::MissingTarget));
    let mut draft = OptionsDraft::new();
    draft.target = Some(IpAddress::V4(1));
    draft.ttl = Some(3);
    let o = draft.finish().ok().unwrap();
    assert_eq!(o.target, IpAddress::V4(1));
    assert_eq!(o.ttl, Some(3));
}

#[test]
fn draft_with_target_is_accepted() {
    let mut draft = OptionsDraft::new();
    draft.target = Some(IpAddress::V4(0xc0000201));
    let o = draft.finish().ok().unwrap();
    assert_eq!(o.target, IpAddress::V4(0xc0000201));
    assert!(o.iface.is_none());
    assert!(o.netns.is_none());
    assert_eq!(o.ttl, None);
    assert_eq!(o.timeout_nanos, None);
    assert_eq!(o.interval_nanos, None);

    let mut draft = OptionsDraft::new();
    draft.target = Some(IpAddress::V6(1));
    draft.iface = Some(Interface::Name("eth1".to_string()));
    draft.netns = Some(Some("red".to_string()));
    draft.timeout_nanos = Some(250_000_000);
    let o = draft.finish().ok().unwrap();
    assert!(matches!(o.iface, Some(Interface::Name(ref n)) if n == "eth1"));
    assert_eq!(o.netns, Some(Some("red".to_string())));
    assert_eq!(o.timeout_nanos, Some(250_000_000));
    assert_eq!(o.target, IpAddress::V6(1));
}
