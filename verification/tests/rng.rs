use rng_ids::rng::{scan_id, scan_id_from, user_agent, user_agent_nth, uuid};

const USER_AGENTS: [&str; 8] = [
    "Mozilla/5.0 (Windows NT 10.0; Win64; x64) AppleWebKit/537.36 (KHTML, like Gecko) Chrome/120.0.0.0 Safari/537.36",
    "Mozilla/5.0 (Macintosh; Intel Mac OS X 10_15_7) AppleWebKit/537.36 (KHTML, like Gecko) Chrome/119.0.0.0 Safari/537.36",
    "Mozilla/5.0 (X11; Linux x86_64) AppleWebKit/537.36 (KHTML, like Gecko) Chrome/118.0.0.0 Safari/537.36",
    "Mozilla/5.0 (iPhone; CPU iPhone OS 17_0 like Mac OS X) AppleWebKit/537.36 (KHTML, like Gecko) Version/17.0 Mobile/15E148 Safari/537.36",
    "Mozilla/5.0 (iPad; CPU OS 16_0 like Mac OS X) AppleWebKit/537.36 (KHTML, like Gecko) Version/16.0 Mobile/15E148 Safari/537.36",
    "Mozilla/5.0 (Android 13; Mobile; rv:109.0) Gecko/109.0 Firefox/109.0",
    "Mozilla/5.0 (Windows NT 10.0; Win64; x64; rv:108.0) Gecko/20100101 Firefox/108.0",
    "Mozilla/5.0 (X11; Ubuntu; Linux x86_64; rv:107.0) Gecko/20100101 Firefox/107.0",
];

fn is_lower_hex(c: char) -> bool {
    c.is_ascii_digit() || ('a'..='f').contains(&c)
}

fn assert_canonical_uuid_v4(s: &str) {
    let chars: Vec<char> = s.chars().collect();
    assert_eq!(chars.len(), 36);
    for (i, &c) in chars.iter().enumerate() {
        if i == 8 || i == 13 || i == 18 || i == 23 {
            assert_eq!(c, '-');
        } else {
            assert!(is_lower_hex(c), "not a lowercase hex digit: {c:?}");
        }
    }
    assert_eq!(chars[14], '4');
    assert!(matches!(chars[19], '8' | '9' | 'a' | 'b'));
}

#[test]
fn uuid_is_canonical_v4_text() {
    for _ in 0..100 {
        let u = uuid();
        assert_canonical_uuid_v4(&u);
    }
}

#[test]
fn uuid_outputs_do_not_collide() {
    let mut seen: Vec<String> = (0..10_000).map(|_| uuid()).collect();
    seen.sort();
    for pair in seen.windows(2) {
        assert_ne!(pair[0], pair[1]);
    }
}

#[test]
fn scan_id_has_prefix_and_no_hyphen() {
    for _ in 0..100 {
        let s = scan_id();
        assert_eq!(s.len(), 38);
        assert!(s.starts_with("v_"));
        assert!(!s.contains('-'));
        let restored: String = s[2..].replace('_', "-");
        assert_canonical_uuid_v4(&restored);
    }
}

#[test]
fn scan_id_from_replaces_hyphens_and_prefixes() {
    let got = scan_id_from("3fa85f64-5717-4562-b3fc-2c963f66afa6");
    assert_eq!(got, "v_3fa85f64_5717_4562_b3fc_2c963f66afa6");
}

#[test]
fn scan_id_from_empty_input() {
    assert_eq!(scan_id_from(""), "v_");
}

#[test]
fn scan_id_from_is_deterministic() {
    let input = "00000000-0000-4000-8000-000000000001";
    let first = scan_id_from(input);
    // Drawing fresh randomness in between must not change the outcome.
    let _ = uuid();
    let second = scan_id_from(input);
    assert_eq!(first, second);
    assert_eq!(first, "v_00000000_0000_4000_8000_000000000001");
}

#[test]
fn user_agent_nth_returns_the_fixed_list() {
    for (i, expected) in USER_AGENTS.iter().enumerate() {
        assert_eq!(user_agent_nth(i), *expected);
    }
}

#[test]
fn user_agent_is_member_of_list() {
    for _ in 0..200 {
        let ua = user_agent();
        assert!(!ua.is_empty());
        assert!(USER_AGENTS.contains(&ua.as_str()), "not in the list: {ua}");
    }
}

#[test]
fn user_agent_choice_is_roughly_uniform() {
    let rounds = 16_000;
    let mut counts = [0usize; 8];
    for _ in 0..rounds {
        let ua = user_agent();
        let pos = USER_AGENTS
            .iter()
            .position(|&a| a == ua)
            .expect("value outside the fixed list");
        counts[pos] += 1;
    }
    // Expected 2000 per entry; a deviation past 500 is far beyond
    // statistical noise for a uniform draw.
    for &n in counts.iter() {
        assert!((1_500..=2_500).contains(&n), "skewed count: {n}");
    }
}
