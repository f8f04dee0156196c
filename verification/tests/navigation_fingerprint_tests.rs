use rumax::fingerprint::fingerprint::{be_bytes, lookup_pair};
use rumax::fingerprint::{ApkBuildFingerprint, FingerprintGenerator, VersionCache, VersionLookup, VersionSource};
use rumax::navigation::{draw_transition, get_transitions, NavigationPlanner, Screen};
use sha2::{Digest, Sha256};

const ALL: [Screen; 8] = [
    Screen::Background,
    Screen::Contacts,
    Screen::Chats,
    Screen::Search,
    Screen::Calls,
    Screen::Chat,
    Screen::Settings,
    Screen::MiniApp,
];

#[test]
fn screen_ids_and_names() {
    let ids: Vec<u32> = ALL.iter().map(|s| s.id()).collect();
    assert_eq!(ids, vec![1, 100, 150, 151, 300, 350, 450, 500]);
    let names: Vec<&str> = ALL.iter().map(|s| s.name()).collect();
    assert_eq!(names, vec!["BACKGROUND", "CONTACTS", "CHATS", "SEARCH", "CALLS", "CHAT", "SETTINGS", "MINIAPP"]);
}

#[test]
fn transition_table() {
    assert_eq!(get_transitions(Screen::Background), vec![(Screen::Chats, 10), (Screen::Settings, 1)]);
    assert_eq!(get_transitions(Screen::MiniApp), vec![(Screen::Settings, 3), (Screen::Chats, 6)]);
    assert_eq!(get_transitions(Screen::Chats).len(), 6);
    for s in ALL {
        let t = get_transitions(s);
        assert!(!t.is_empty());
        assert!(t.iter().all(|(_, w)| *w > 0));
    }
}

#[test]
fn planner_forward_and_back() {
    let mut p = NavigationPlanner::new();
    assert_eq!(p.current_screen, Screen::Background);
    assert_eq!(p.advance(false, 0), Screen::Chats);
    assert_eq!(p.history_len(), 1);
    assert_eq!(p.advance(false, 0), Screen::Chat);
    assert_eq!(p.history_len(), 2);
    // back undoes the last forward move
    assert_eq!(p.advance(true, 0), Screen::Chats);
    assert_eq!(p.history_len(), 1);
    // staying on the same screen remembers nothing
    assert_eq!(p.advance(false, 5), Screen::Chats);
    assert_eq!(p.history_len(), 1);
    p.reset_to_background();
    assert_eq!(p.current_screen, Screen::Background);
    assert_eq!(p.history_len(), 0);
    // going back with nothing remembered moves forward
    assert_eq!(p.advance(true, 1), Screen::Settings);
}

#[test]
fn planner_remembers_at_most_four() {
    let mut p = NavigationPlanner::new();
    // Background -> Chats -> Chat -> Settings -> Contacts -> Chats -> Chat
    p.advance(false, 0);
    p.advance(false, 0);
    p.advance(false, 2);
    p.advance(false, 1);
    p.advance(false, 0);
    p.advance(false, 0);
    assert_eq!(p.current_screen, Screen::Chat);
    assert_eq!(p.history_len(), 4);
    assert_eq!(p.advance(true, 0), Screen::Chats);
    assert_eq!(p.advance(true, 0), Screen::Contacts);
    assert_eq!(p.advance(true, 0), Screen::Settings);
    assert_eq!(p.advance(true, 0), Screen::Chat);
    assert_eq!(p.history_len(), 0);
}

#[test]
fn planner_random_steps_follow_the_graph() {
    let mut p = NavigationPlanner::new();
    for _ in 0..200 {
        let from = p.current_screen;
        let to = p.next_screen(false);
        assert!(get_transitions(from).iter().any(|(s, _)| *s == to));
        assert!(p.history_len() <= 4);
        let i = draw_transition(to);
        assert!(i < get_transitions(to).len());
    }
}

fn build(so: &[(&str, &str)]) -> ApkBuildFingerprint {
    ApkBuildFingerprint {
        signature_scheme: "v2".into(),
        certificate_count: 1,
        certificate_meta_sha256: "00Ff".into(),
        certificate_sha256: vec!["aa".into()],
        dex_meta_sha256: "abcd".into(),
        so_meta_sha256_arm64_v8a: None,
        so_meta_sha256: so.iter().map(|(a, b)| (a.to_string(), b.to_string())).collect(),
        build_number: 42,
    }
}

fn digest(parts: &[&[u8]]) -> Vec<u8> {
    let mut h = Sha256::new();
    for p in parts {
        h.update(p);
    }
    h.finalize().to_vec()
}

#[test]
fn fingerprint_of_known_build() {
    let g = FingerprintGenerator::new(build(&[("arm64-v8a", "1234"), ("x86", "zz")]));
    let fp = g.generate_fingerprint("dev", 1, None).expect("fingerprint");
    let seed = 1i64.to_be_bytes();
    let mut expected = digest(&[&[0x00, 0xff], &seed, b"dev"]);
    expected.extend(digest(&[&[0xab, 0xcd], &seed, b"dev"]));
    expected.extend(digest(&[&[0x12, 0x34], &seed, b"dev"]));
    assert_eq!(fp.len(), 96);
    assert_eq!(fp, expected);
    assert_eq!(g.generate_fingerprint("dev", 1, Some("arm64-v8a")), Some(expected));
}

#[test]
fn fingerprint_failures() {
    let g = FingerprintGenerator::new(build(&[("arm64-v8a", "1234"), ("x86", "zz"), ("odd", "123")]));
    assert_eq!(g.generate_fingerprint("dev", 1, Some("mips")), None);
    assert_eq!(g.generate_fingerprint("dev", 1, Some("x86")), None);
    assert_eq!(g.generate_fingerprint("dev", 1, Some("odd")), None);
}

#[test]
fn seed_bytes_are_big_endian() {
    assert_eq!(be_bytes(-2), (-2i64).to_be_bytes().to_vec());
    assert_eq!(be_bytes(0x0102030405060708), vec![1, 2, 3, 4, 5, 6, 7, 8]);
}

#[test]
fn later_pair_wins() {
    let pairs = vec![("a".to_string(), "1".to_string()), ("a".to_string(), "2".to_string())];
    assert_eq!(lookup_pair(&pairs, "a").map(|s| s.as_str()), Some("2"));
    assert_eq!(lookup_pair(&pairs, "b"), None);
}

#[test]
fn version_cache_never_replaces() {
    let mut cache = VersionCache::new();
    assert!(cache.get("1.0").is_none());
    let first = vec![("1.0".to_string(), build(&[("arm64-v8a", "01")]))];
    let found = cache.absorb("1.0", first);
    assert_eq!(found.map(|f| f.build_number), Some(42));
    let mut other = build(&[]);
    other.build_number = 7;
    let mut newer = build(&[]);
    newer.build_number = 8;
    let second = vec![("1.0".to_string(), other), ("2.0".to_string(), newer)];
    let found = cache.absorb("2.0", second);
    assert_eq!(found.map(|f| f.build_number), Some(8));
    assert_eq!(cache.get("1.0").map(|f| f.build_number), Some(42));
    assert_eq!(cache.get("2.0").map(|f| f.build_number), Some(8));
    assert!(cache.absorb("3.0", vec![]).is_none());
}

fn numbered(n: i64) -> ApkBuildFingerprint {
    let mut b = build(&[]);
    b.build_number = n;
    b
}

#[test]
fn version_lookup_goes_through_the_sources_in_order() {
    let mut cache = VersionCache::new();
    let step = cache.lookup_start("3.0");
    assert!(matches!(step, VersionLookup::Fetch(VersionSource::LocalFile)));
    // the local file cannot be read
    let step = cache.lookup_continue("3.0", VersionSource::LocalFile, None);
    assert!(matches!(step, VersionLookup::Fetch(VersionSource::Published)));
    // the published catalogue lists other versions only
    let published = vec![("1.0".to_string(), numbered(1)), ("2.0".to_string(), numbered(2))];
    let step = cache.lookup_continue("3.0", VersionSource::Published, Some(published));
    assert!(matches!(step, VersionLookup::Fetch(VersionSource::Mirror)));
    assert!(cache.get("3.0").is_none());
    assert_eq!(cache.get("2.0").map(|f| f.build_number), Some(2));
    // the mirror lists it; its copy of 1.0 does not replace the known one
    let mirror = vec![("1.0".to_string(), numbered(10)), ("3.0".to_string(), numbered(3))];
    match cache.lookup_continue("3.0", VersionSource::Mirror, Some(mirror)) {
        VersionLookup::Found(f) => assert_eq!(f.build_number, 3),
        other => panic!("unexpected {:?}", other),
    }
    assert_eq!(cache.get("1.0").map(|f| f.build_number), Some(1));
    // a second lookup finds the same build at once
    match cache.lookup_start("3.0") {
        VersionLookup::Found(f) => assert_eq!(f.build_number, 3),
        other => panic!("unexpected {:?}", other),
    }
}

#[test]
fn version_lookup_ends_after_the_last_source() {
    let mut cache = VersionCache::new();
    let step = cache.lookup_continue("9.9", VersionSource::Mirror, Some(vec![("1.0".to_string(), numbered(1))]));
    assert!(matches!(step, VersionLookup::NotFound));
    assert!(cache.get("9.9").is_none());
    assert!(cache.get("1.0").is_some());
}

#[test]
fn random_walk_keeps_its_shape() {
    let mut p = NavigationPlanner::new();
    for i in 0..2000 {
        let before = p.current_screen;
        let history = p.history_len();
        let go_back = i % 3 == 0;
        let to = p.next_screen(go_back);
        assert_eq!(to, p.current_screen);
        assert!(p.history_len() <= 4);
        if to == before {
            assert!(before == Screen::Chats || before == Screen::Chat);
            assert!(!(go_back && history > 0));
        }
        if to == Screen::Background {
            assert!(go_back && history > 0);
        }
    }
}

#[test]
fn planner_steps_from_any_state() {
    let mut p = NavigationPlanner::new();
    assert_eq!(p.advance(false, 0), Screen::Chats);
    // a caller moves the planner to the screen it remembers last
    p.current_screen = Screen::Background;
    assert_eq!(p.next_screen(true), Screen::Background);
    assert_eq!(p.history_len(), 0);
    for _ in 0..100 {
        p.current_screen = Screen::Chat;
        p.next_screen(false);
        assert!(p.history_len() <= 4);
    }
}
