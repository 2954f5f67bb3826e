use axum_session::AxumSession;
use axum_session::AxumSessionID;
use axum_session::store::DRAW_LIMIT;
use axum_session::AxumSessionStore;
use cookie::Cookie;
use cookie::CookieJar;
use uuid::Uuid;

fn jar_with(name: &'static str, value: &'static str) -> CookieJar {
    let mut jar = CookieJar::new();
    jar.add(Cookie::new(name, value));
    jar
}

#[test]
fn parse_reads_a_hyphenated_uuid() {
    let id = AxumSessionID::parse("550e8400-e29b-41d4-a716-446655440000");
    assert_eq!(id, Some(AxumSessionID(0x550e8400_e29b_41d4_a716_446655440000)));
}

#[test]
fn parse_reads_the_other_forms_of_a_uuid() {
    let expected = Some(AxumSessionID(0xa1a2a3a4_b1b2_c1c2_d1d2_d3d4d5d6d7d8));
    assert_eq!(AxumSessionID::parse("a1a2a3a4b1b2c1c2d1d2d3d4d5d6d7d8"), expected);
    assert_eq!(AxumSessionID::parse("A1A2A3A4-B1B2-C1C2-D1D2-D3D4D5D6D7D8"), expected);
    assert_eq!(AxumSessionID::parse("urn:uuid:a1a2a3a4-b1b2-c1c2-d1d2-d3d4d5d6d7d8"), expected);
    assert_eq!(AxumSessionID::parse("{a1a2a3a4-b1b2-c1c2-d1d2-d3d4d5d6d7d8}"), expected);
}

#[test]
fn parse_rejects_what_is_no_uuid() {
    assert_eq!(AxumSessionID::parse(""), None);
    assert_eq!(AxumSessionID::parse("not-a-session"), None);
    assert_eq!(AxumSessionID::parse("550e8400-e29b-41d4-a716-44665544000"), None);
    assert_eq!(AxumSessionID::parse("550e8400-e29b-41d4-a716-44665544000g"), None);
    assert_eq!(AxumSessionID::parse("1234"), None);
}

#[test]
fn parse_agrees_with_the_uuid_crate() {
    let text = "67e55044-10b1-426f-9247-bb680e5fe0c8";
    let bits: u128 = Uuid::parse_str(text).unwrap().as_u128();
    assert_eq!(AxumSessionID::parse(text), Some(AxumSessionID(bits)));
}

#[test]
fn generated_identifier_is_not_in_the_table() {
    let mut store = AxumSessionStore::new("sid", false);
    let mut n: u32 = 0;
    while n < 50 {
        let id = store.generate_unique_id();
        assert!(!store.contains(id));
        store.get_or_create(id);
        assert!(store.contains(id));
        n += 1;
    }
    assert_eq!(store.len(), 50);
}

#[test]
fn generated_identifiers_are_random_uuids() {
    let store = AxumSessionStore::new("sid", false);
    let id = store.generate_unique_id();
    let other = store.generate_unique_id();
    assert_ne!(id, other);
    assert_eq!(Uuid::from_u128(id.0).get_version_num(), 4);
    assert_eq!(Uuid::from_u128(other.0).get_version_num(), 4);
}

#[test]
fn fresh_identifiers_are_pairwise_different() {
    let mut store = AxumSessionStore::new("sid", false);
    let jar = CookieJar::new();
    let mut issued: Vec<AxumSessionID> = Vec::new();
    let mut n: usize = 0;
    while n < 200 {
        let session = AxumSession::new(&store, &jar);
        assert!(!store.contains(session.id));
        assert!(!issued.contains(&session.id));
        store.get_or_create(session.id);
        issued.push(session.id);
        n += 1;
    }
    assert_eq!(store.len(), 200);
    for id in issued.iter() {
        assert!(store.contains(*id));
    }
}

#[test]
fn new_only_reads_the_table() {
    let mut store = AxumSessionStore::new("sid", false);
    let known = AxumSessionID(0x00000000_0000_4000_8000_000000000001);
    let owner = AxumSession::resume_or_create(&mut store, Some(known));
    owner.set(&mut store, "user", Ok("1".to_string()));
    owner.set_accepted(&mut store, true);
    let session = AxumSession::new(&store, &CookieJar::new());
    assert_ne!(session.id, known);
    assert!(!store.contains(session.id));
    assert_eq!(store.len(), 1);
    let entry = store.get(known).unwrap();
    assert_eq!(entry.get("user").map(|text| text.as_str()), Some("1"));
    assert!(entry.accepted);
    assert!(!entry.destroy);
    assert!(!entry.longterm);
}

#[test]
fn free_candidate_is_the_answer() {
    let mut store = AxumSessionStore::new("sid", false);
    store.get_or_create(AxumSessionID(1));
    assert_eq!(store.settle(AxumSessionID(2), 1), Some(AxumSessionID(2)));
    assert_eq!(store.settle(AxumSessionID(2), 64), Some(AxumSessionID(2)));
    assert_eq!(store.settle(AxumSessionID(2), u64::MAX), Some(AxumSessionID(2)));
    assert_eq!(store.settle(AxumSessionID(0), 0), Some(AxumSessionID(0)));
}

#[test]
fn taken_candidate_is_passed_over() {
    let mut store = AxumSessionStore::new("sid", false);
    store.get_or_create(AxumSessionID(5));
    assert_eq!(store.settle(AxumSessionID(5), 0), None);
    assert_eq!(store.settle(AxumSessionID(5), 1), None);
    assert_eq!(store.settle(AxumSessionID(5), 63), None);
    assert_eq!(store.settle(AxumSessionID(5), 64), None);
    assert_eq!(store.settle(AxumSessionID(5), 65), None);
    assert_eq!(store.settle(AxumSessionID(5), 1_000_000_000_000), None);
    assert_eq!(store.settle(AxumSessionID(5), u64::MAX - 1), None);
    assert_eq!(store.len(), 1);
}

#[test]
fn first_free_candidate_of_a_run_of_draws_is_taken() {
    let mut store = AxumSessionStore::new("sid", false);
    store.get_or_create(AxumSessionID(0x00000000_0000_4000_8000_000000000001));
    let drawn: Vec<u128> = vec![
        0x00000000_0000_4000_8000_000000000001,
        0x00000000_0000_4000_8000_000000000001,
        0x00000000_0000_4000_8000_000000000002,
        0x00000000_0000_4000_8000_000000000003,
    ];
    let mut settled: Option<AxumSessionID> = None;
    let mut draws: u64 = 0;
    for bits in drawn.iter() {
        if settled.is_none() {
            draws += 1;
            settled = store.settle(AxumSessionID(*bits), draws);
        }
    }
    assert_eq!(settled, Some(AxumSessionID(0x00000000_0000_4000_8000_000000000002)));
    assert_eq!(draws, 3);
    assert_eq!(store.len(), 1);
}

#[test]
fn long_run_of_taken_draws_is_passed_over_to_the_first_free_one() {
    let mut store = AxumSessionStore::new("sid", false);
    let mut bits: u128 = 0;
    while bits < 200 {
        store.get_or_create(AxumSessionID(bits));
        bits += 1;
    }
    let mut settled: Option<AxumSessionID> = None;
    let mut draws: u64 = 0;
    let mut drawn: u128 = 0;
    while settled.is_none() {
        draws += 1;
        settled = store.settle(AxumSessionID(drawn), draws);
        drawn += 1;
    }
    assert_eq!(settled, Some(AxumSessionID(200)));
    assert_eq!(draws, 201);
    assert_eq!(store.len(), 200);
}

#[test]
fn draws_are_counted_as_far_as_a_counter_goes() {
    assert_eq!(DRAW_LIMIT, u64::MAX);
    let mut store = AxumSessionStore::new("sid", false);
    store.get_or_create(AxumSessionID(5));
    store.get_or_create(AxumSessionID(6));
    store.get_or_create(AxumSessionID(8));
    assert_eq!(store.settle(AxumSessionID(5), DRAW_LIMIT - 1), None);
    assert_eq!(store.settle(AxumSessionID(5), DRAW_LIMIT), Some(AxumSessionID(7)));
    assert_eq!(store.settle(AxumSessionID(8), DRAW_LIMIT), Some(AxumSessionID(9)));
    assert_eq!(store.settle(AxumSessionID(7), DRAW_LIMIT), Some(AxumSessionID(7)));
    assert_eq!(store.len(), 3);
}

#[test]
fn fresh_identifier_avoids_a_populated_table() {
    let mut store = AxumSessionStore::new("sid", false);
    let mut bits: u128 = 0;
    while bits < 1000 {
        store.get_or_create(AxumSessionID(bits));
        bits += 1;
    }
    let session = AxumSession::resume_or_create(&mut store, None);
    assert!(session.id.0 >= 1000);
    assert_eq!(store.len(), 1001);
}

#[test]
fn first_free_is_the_start_where_the_start_is_free() {
    let mut store = AxumSessionStore::new("sid", false);
    store.get_or_create(AxumSessionID(4));
    assert_eq!(store.first_free_from(AxumSessionID(5)), AxumSessionID(5));
    assert_eq!(store.first_free_from(AxumSessionID(0)), AxumSessionID(0));
}

#[test]
fn first_free_skips_a_run_of_entries() {
    let mut store = AxumSessionStore::new("sid", false);
    store.get_or_create(AxumSessionID(5));
    store.get_or_create(AxumSessionID(6));
    store.get_or_create(AxumSessionID(7));
    store.get_or_create(AxumSessionID(9));
    assert_eq!(store.first_free_from(AxumSessionID(5)), AxumSessionID(8));
    assert_eq!(store.first_free_from(AxumSessionID(6)), AxumSessionID(8));
    assert_eq!(store.first_free_from(AxumSessionID(9)), AxumSessionID(10));
}

#[test]
fn first_free_wraps_past_the_largest_identifier() {
    let mut store = AxumSessionStore::new("sid", false);
    store.get_or_create(AxumSessionID(u128::MAX - 1));
    store.get_or_create(AxumSessionID(u128::MAX));
    store.get_or_create(AxumSessionID(0));
    assert_eq!(store.first_free_from(AxumSessionID(u128::MAX - 1)), AxumSessionID(1));
    assert_eq!(store.first_free_from(AxumSessionID(u128::MAX)), AxumSessionID(1));
}

#[test]
fn cookie_with_an_identifier_names_the_session() {
    let store = AxumSessionStore::new("sid", false);
    let jar = jar_with("sid", "550e8400-e29b-41d4-a716-446655440000");
    let session = AxumSession::new(&store, &jar);
    assert_eq!(session.id, AxumSessionID(0x550e8400_e29b_41d4_a716_446655440000));
    assert!(!store.contains(session.id));
    assert_eq!(store.len(), 0);
}

#[test]
fn unknown_cookie_reads_as_an_empty_session() {
    let mut store = AxumSessionStore::new("sid", false);
    let other = AxumSession::resume_or_create(&mut store, None);
    other.set(&mut store, "user", Ok("1".to_string()));
    let jar = jar_with("sid", "550e8400-e29b-41d4-a716-446655440000");
    let session = AxumSession::new(&store, &jar);
    let user: Option<i32> = session.get(&store, "user", |text| serde_json::from_str(text));
    assert_eq!(user, None);
    store.get_or_create(session.id);
    let user: Option<i32> = session.get(&store, "user", |text| serde_json::from_str(text));
    assert_eq!(user, None);
    assert_eq!(store.len(), 2);
}

#[test]
fn cookie_is_looked_up_under_the_configured_name() {
    let store = AxumSessionStore::new("session", false);
    let jar = jar_with("sid", "550e8400-e29b-41d4-a716-446655440000");
    let session = AxumSession::new(&store, &jar);
    assert_ne!(session.id, AxumSessionID(0x550e8400_e29b_41d4_a716_446655440000));
    assert_eq!(store.cookie_name(), "session");
}

#[test]
fn cookie_value_is_taken_not_its_name() {
    let store = AxumSessionStore::new("550e8400-e29b-41d4-a716-446655440000", false);
    let jar = jar_with(
        "550e8400-e29b-41d4-a716-446655440000",
        "67e55044-10b1-426f-9247-bb680e5fe0c8",
    );
    let session = AxumSession::new(&store, &jar);
    assert_eq!(session.id, AxumSessionID(0x67e55044_10b1_426f_9247_bb680e5fe0c8));
}

#[test]
fn malformed_cookie_gets_a_fresh_identifier() {
    let mut store = AxumSessionStore::new("sid", false);
    store.get_or_create(AxumSessionID(1));
    let jar = jar_with("sid", "tampered");
    let session = AxumSession::new(&store, &jar);
    assert_ne!(session.id, AxumSessionID(1));
    assert!(!store.contains(session.id));
    assert_eq!(store.len(), 1);
}

#[test]
fn removed_cookie_is_not_presented() {
    let store = AxumSessionStore::new("sid", false);
    let mut jar = CookieJar::new();
    jar.add_original(Cookie::new("sid", "550e8400-e29b-41d4-a716-446655440000"));
    jar.remove(Cookie::named("sid"));
    let session = AxumSession::new(&store, &jar);
    assert_ne!(session.id, AxumSessionID(0x550e8400_e29b_41d4_a716_446655440000));
}

#[test]
fn known_identifier_resumes_its_session() {
    let mut store = AxumSessionStore::new("sid", false);
    let jar = jar_with("sid", "550e8400-e29b-41d4-a716-446655440000");
    let first = AxumSession::new(&store, &jar);
    store.get_or_create(first.id);
    first.set(&mut store, "user", Ok("7".to_string()));
    first.set_longterm(&mut store, true);
    let second = AxumSession::new(&store, &jar);
    store.get_or_create(second.id);
    assert_eq!(second.id, first.id);
    assert_eq!(store.len(), 1);
    let entry = store.get(second.id).unwrap();
    assert_eq!(entry.get("user").map(|text| text.as_str()), Some("7"));
    assert!(entry.longterm);
}
