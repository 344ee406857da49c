use face_attendance::protocol::Tier;
use face_attendance::{
    CompanyConfig, ConfigStep, FaceAttendanceService, FaceError, PersonInfo, PushOutcome,
    RegisterReq, RegisterStep, ServiceError, Similarity, StoreFault, ThirdPartyResp, VerifyResult,
    VerifyStep,
};

/// The surroundings of a verification, with a counter on every collaborator.
struct World {
    stored_configs: Vec<CompanyConfig>,
    stored_persons: Vec<PersonInfo>,
    store_fails: bool,
    live: Result<String, FaceError>,
    scorer: fn(&str, &str) -> Result<f32, FaceError>,
    webhook_delay_ms: u64,
    webhook_status: u16,
    webhook_body: Option<(i32, &'static str, &'static str)>,
    webhook_reachable: bool,
    config_lookups: usize,
    captures: usize,
    scores: usize,
    loads: usize,
    pushes: usize,
    pushed_to: Vec<String>,
    payloads: Vec<VerifyResult>,
    matched: Vec<(String, u32, bool)>,
    scored_tiers: Vec<Tier>,
    /// What the clock and the generator are taken to give; the real ones
    /// are asked where this is nothing.
    stamp: Option<(i64, u32)>,
}

fn exact_or_nothing(live: &str, stored: &str) -> Result<f32, FaceError> {
    if live == stored {
        Ok(1.0)
    } else {
        Ok(0.0)
    }
}

impl World {
    fn new(live: &str) -> World {
        World {
            stored_configs: Vec::new(),
            stored_persons: Vec::new(),
            store_fails: false,
            live: Ok(live.to_string()),
            scorer: exact_or_nothing,
            webhook_delay_ms: 10,
            webhook_status: 200,
            webhook_body: Some((9, "open", "remote-1")),
            webhook_reachable: true,
            config_lookups: 0,
            captures: 0,
            scores: 0,
            loads: 0,
            pushes: 0,
            pushed_to: Vec::new(),
            payloads: Vec::new(),
            matched: Vec::new(),
            scored_tiers: Vec::new(),
            stamp: None,
        }
    }

    fn find_config(&mut self, company_id: &str) -> Result<Option<CompanyConfig>, StoreFault> {
        self.config_lookups += 1;
        if self.store_fails {
            return Err(StoreFault);
        }
        Ok(self.stored_configs.iter().find(|c| c.company_id == company_id).cloned())
    }

    fn load_persons(&mut self, company_id: &str) -> Result<Vec<PersonInfo>, StoreFault> {
        self.loads += 1;
        if self.store_fails {
            return Err(StoreFault);
        }
        Ok(self.stored_persons.iter().filter(|p| p.company_id == company_id).cloned().collect())
    }

    fn post(&mut self, url: &str, payload: &VerifyResult, deadline_ms: u64) -> PushOutcome {
        self.pushes += 1;
        self.pushed_to.push(url.to_string());
        self.payloads.push(payload.clone());
        if !self.webhook_reachable {
            return PushOutcome::TransportFailed;
        }
        if self.webhook_delay_ms > deadline_ms {
            return PushOutcome::TimedOut;
        }
        PushOutcome::Responded {
            status: self.webhook_status,
            body: self.webhook_body.map(|(status, message, request_id)| ThirdPartyResp {
                status,
                message: message.to_string(),
                request_id: request_id.to_string(),
            }),
        }
    }
}

fn run(
    service: &mut FaceAttendanceService,
    world: &mut World,
    mut step: VerifyStep,
) -> Result<ThirdPartyResp, ServiceError> {
    loop {
        step = match step {
            VerifyStep::Resolve(pending) => {
                let found = world.find_config(pending.company_id());
                service.config_loaded(pending, found)
            }
            VerifyStep::Capture(pending) => {
                world.captures += 1;
                service.captured(pending, world.live.clone())
            }
            VerifyStep::Score(pending) => {
                world.scores += 1;
                world.scored_tiers.push(pending.tier());
                let answer = (world.scorer)(pending.live_template(), pending.stored_template())
                    .map(|x| Similarity::from_bits(x.to_bits()));
                match world.stamp {
                    Some((now, nonce)) => service.scored_at(pending, answer, now, nonce),
                    None => service.scored(pending, answer),
                }
            }
            VerifyStep::Load(pending) => {
                let rows = world.load_persons(pending.company_id());
                match world.stamp {
                    Some((now, nonce)) => pending.loaded_at(rows, now, nonce),
                    None => pending.loaded(rows),
                }
            }
            VerifyStep::Push(pending) => {
                let outcome = pending.outcome();
                world.matched.push((
                    outcome.person.as_ref().unwrap().local_id.clone(),
                    outcome.similarity.to_bits(),
                    outcome.matched,
                ));
                let url = pending.url().to_string();
                let payload = pending.payload().clone();
                let deadline = pending.deadline_ms();
                let reply = world.post(&url, &payload, deadline);
                return pending.replied(reply);
            }
            VerifyStep::Done(result) => return result,
        };
    }
}

fn verify(
    service: &mut FaceAttendanceService,
    world: &mut World,
    company_id: &str,
) -> Result<ThirdPartyResp, ServiceError> {
    let step = service.verify_and_notify(company_id);
    run(service, world, step)
}

fn verify_at(
    service: &mut FaceAttendanceService,
    world: &mut World,
    company_id: &str,
    now: i64,
    nonce: u32,
) -> Result<ThirdPartyResp, ServiceError> {
    world.stamp = Some((now, nonce));
    let step = service.verify_and_notify(company_id);
    run(service, world, step)
}

fn config(id: &str, url: &str) -> CompanyConfig {
    CompanyConfig {
        company_id: id.to_string(),
        third_party_api: url.to_string(),
        cache_expire_seconds: 3600,
        created_at: 1_700_000_000_000,
    }
}

fn person(company: &str, local: &str, feature: &str) -> PersonInfo {
    PersonInfo {
        local_id: local.to_string(),
        company_id: company.to_string(),
        name: format!("name-{}", local),
        img_path: format!("/img/{}.png", local),
        third_party_id: format!("ext-{}", local),
        face_feature: feature.to_string(),
        create_time: 1_700_000_000_001,
    }
}

/// Sets a configuration the way the caller does: the store first, then
/// memory.
fn set_config(
    service: &mut FaceAttendanceService,
    config: CompanyConfig,
    persisted: Result<(), StoreFault>,
) -> Result<(), ServiceError> {
    match service.add_company_config(config) {
        ConfigStep::Save(pending) => service.config_saved(pending, persisted),
        ConfigStep::Done(result) => result,
    }
}

fn configured(id: &str) -> FaceAttendanceService {
    let mut service = FaceAttendanceService::new();
    assert!(set_config(&mut service, config(id, "http://acme.test/hook"), Ok(())).is_ok());
    service
}

/// Puts a person in the cache the way an enrollment does.
fn cache_person(service: &mut FaceAttendanceService, p: PersonInfo) {
    let mut world = World::new(&p.face_feature);
    world.stored_persons.push(p.clone());
    world.scorer = exact_or_nothing;
    let before = service.cached_persons();
    let company = p.company_id.clone();
    assert!(verify(service, &mut world, &company).is_ok());
    assert!(service.cached_persons() >= before);
}

#[test]
fn tenant_without_stored_config_is_not_configured() {
    let mut service = FaceAttendanceService::new();
    let mut world = World::new("live");
    world.stored_persons.push(person("acme", "wu", "live"));
    let r = verify(&mut service, &mut world, "acme");
    assert!(matches!(r, Err(ServiceError::NotConfigured)));
    assert_eq!(world.config_lookups, 1);
    assert_eq!(world.captures, 0);
    assert_eq!(world.scores, 0);
    assert_eq!(world.loads, 0);
    assert_eq!(world.pushes, 0);
    assert_eq!(service.cached_persons(), 0);
}

#[test]
fn other_tenants_config_does_not_configure_this_one() {
    let mut service = configured("other");
    let mut world = World::new("live");
    world.stored_configs.push(config("other", "http://other.test"));
    let r = verify(&mut service, &mut world, "acme");
    assert!(matches!(r, Err(ServiceError::NotConfigured)));
    assert_eq!(world.pushes, 0);
    assert_eq!(world.captures, 0);
}

#[test]
fn config_is_read_through_from_the_store() {
    let mut service = FaceAttendanceService::new();
    let mut world = World::new("t1");
    world.stored_configs.push(config("acme", "http://stored.test/hook"));
    world.stored_persons.push(person("acme", "wu", "t1"));
    let r = verify(&mut service, &mut world, "acme").unwrap();
    assert_eq!(r.status, 9);
    assert_eq!(world.config_lookups, 1);
    assert_eq!(world.pushed_to, vec!["http://stored.test/hook"]);
    assert_eq!(
        service.get_company_config("acme").unwrap().third_party_api,
        "http://stored.test/hook"
    );
    let r = verify(&mut service, &mut world, "acme").unwrap();
    assert_eq!(r.status, 9);
    assert_eq!(world.config_lookups, 1);
}

#[test]
fn failing_store_at_config_lookup_is_a_storage_error() {
    let mut service = FaceAttendanceService::new();
    let mut world = World::new("t1");
    world.store_fails = true;
    let r = verify(&mut service, &mut world, "acme");
    assert!(matches!(r, Err(ServiceError::StorageError)));
    assert_eq!(world.captures, 0);
    assert_eq!(world.pushes, 0);
}

#[test]
fn exact_template_matches_with_similarity_one() {
    let mut service = configured("acme");
    let mut world = World::new("template-of-li");
    world.stored_persons.push(person("acme", "li", "template-of-li"));
    let r = verify(&mut service, &mut world, "acme").unwrap();
    assert_eq!(r.status, 9);
    assert_eq!(world.matched, vec![("li".to_string(), 1.0f32.to_bits(), true)]);
    assert_eq!(f32::from_bits(world.matched[0].1), 1.0);
    assert_eq!(world.pushes, 1);
}

#[test]
fn exact_template_in_cache_matches_with_similarity_one() {
    let mut service = configured("acme");
    cache_person(&mut service, person("acme", "li", "template-of-li"));
    let mut world = World::new("template-of-li");
    let r = verify(&mut service, &mut world, "acme").unwrap();
    assert_eq!(r.status, 9);
    assert_eq!(world.matched, vec![("li".to_string(), 1.0f32.to_bits(), true)]);
    assert_eq!(world.loads, 0);
}

#[test]
fn store_match_populates_cache_and_next_verification_skips_the_store() {
    let mut service = configured("acme");
    let mut world = World::new("t-wang");
    world.stored_persons.push(person("acme", "zhao", "t-zhao"));
    world.stored_persons.push(person("acme", "wang", "t-wang"));
    assert_eq!(service.cached_persons(), 0);

    let first = verify(&mut service, &mut world, "acme").unwrap();
    assert_eq!(first.status, 9);
    assert_eq!(world.loads, 1);
    assert_eq!(world.scores, 2);
    assert_eq!(world.scored_tiers, vec![Tier::Store, Tier::Store]);
    assert_eq!(service.cached_persons(), 1);

    let second = verify(&mut service, &mut world, "acme").unwrap();
    assert_eq!(second.status, 9);
    assert_eq!(world.loads, 1);
    assert_eq!(world.scores, 3);
    assert_eq!(world.scored_tiers, vec![Tier::Store, Tier::Store, Tier::Memory]);
    assert_eq!(world.matched[0].0, "wang");
    assert_eq!(world.matched[1].0, "wang");
    assert_eq!(service.cached_persons(), 1);
    assert_eq!(world.pushes, 2);
}

fn graded(_live: &str, stored: &str) -> Result<f32, FaceError> {
    match stored {
        "low" => Ok(0.2),
        "edge" => Ok(0.6),
        "good" => Ok(0.7),
        "better" => Ok(0.95),
        "broken" => Err(FaceError::FeatureDecodeError),
        _ => Ok(0.0),
    }
}

#[test]
fn first_match_in_cache_order_wins_over_the_better_score() {
    let mut service = configured("acme");
    cache_person(&mut service, person("acme", "first", "good"));
    cache_person(&mut service, person("acme", "second", "better"));
    assert_eq!(service.cached_persons(), 2);

    let mut world = World::new("live");
    world.scorer = graded;
    let r = verify(&mut service, &mut world, "acme").unwrap();
    assert_eq!(r.status, 9);
    assert_eq!(world.matched, vec![("first".to_string(), 0.7f32.to_bits(), true)]);
    assert_eq!(world.scores, 1);
    assert_eq!(world.payloads[0].local_id, "first");
    assert_eq!(world.loads, 0);
}

#[test]
fn first_match_wins_in_the_other_order_too() {
    let mut service = configured("acme");
    cache_person(&mut service, person("acme", "second", "better"));
    cache_person(&mut service, person("acme", "first", "good"));

    let mut world = World::new("live");
    world.scorer = graded;
    verify(&mut service, &mut world, "acme").unwrap();
    assert_eq!(world.matched, vec![("second".to_string(), 0.95f32.to_bits(), true)]);
}

#[test]
fn score_at_the_threshold_is_a_match() {
    let mut service = configured("acme");
    let mut world = World::new("live");
    world.scorer = graded;
    world.stored_persons.push(person("acme", "a", "low"));
    world.stored_persons.push(person("acme", "b", "edge"));
    world.stored_persons.push(person("acme", "c", "better"));
    verify(&mut service, &mut world, "acme").unwrap();
    assert_eq!(world.matched, vec![("b".to_string(), 0.6f32.to_bits(), true)]);
    assert_eq!(world.scores, 2);
}

#[test]
fn slow_webhook_is_a_timeout_after_exactly_one_attempt() {
    let mut service = configured("acme");
    let mut world = World::new("t1");
    world.stored_persons.push(person("acme", "wu", "t1"));
    world.webhook_delay_ms = 6000;
    let r = verify(&mut service, &mut world, "acme");
    assert!(matches!(r, Err(ServiceError::RemoteTimeout)));
    assert_eq!(world.pushes, 1);
}

#[test]
fn webhook_within_the_deadline_is_no_timeout() {
    let mut service = configured("acme");
    let mut world = World::new("t1");
    world.stored_persons.push(person("acme", "wu", "t1"));
    world.webhook_delay_ms = 5000;
    let r = verify(&mut service, &mut world, "acme").unwrap();
    assert_eq!(r.status, 9);
    assert_eq!(world.pushes, 1);
}

#[test]
fn sample_matching_nobody_is_denied_without_any_push() {
    let mut service = configured("acme");
    cache_person(&mut service, person("acme", "cached", "t-cached"));
    let mut world = World::new("stranger");
    world.stored_persons.push(person("acme", "cached", "t-cached"));
    world.stored_persons.push(person("acme", "stored", "t-stored"));
    let r = verify_at(&mut service, &mut world, "acme", 1_700_000_000_123, 4821).unwrap();
    assert_eq!(r.status, 1);
    assert!(!r.is_allowed());
    assert_eq!(r.message, "未匹配到白名单人员");
    assert_eq!(r.request_id, "req_1700000000123_4821");
    assert_eq!(world.pushes, 0);
    assert_eq!(world.loads, 1);
    assert_eq!(world.scores, 3);
    assert_eq!(service.cached_persons(), 1);
}

#[test]
fn tenant_without_persons_is_denied_without_any_push() {
    let mut service = configured("acme");
    let mut world = World::new("stranger");
    let r = verify(&mut service, &mut world, "acme").unwrap();
    assert_eq!(r.status, 1);
    assert_eq!(world.pushes, 0);
    assert_eq!(world.scores, 0);
    assert_eq!(world.loads, 1);
    assert_eq!(world.captures, 1);
}

#[test]
fn payload_says_who_matched() {
    let mut service = FaceAttendanceService::new();
    set_config(&mut service, config("acme", "http://acme.test/gate"), Ok(())).unwrap();
    let mut world = World::new("t1");
    world.stored_persons.push(person("acme", "wu", "t1"));
    world.webhook_body = Some((9, "welcome", "remote-42"));
    let r = verify_at(&mut service, &mut world, "acme", 1_700_000_000_555, 1000).unwrap();
    assert_eq!(r.status, 9);
    assert_eq!(r.message, "welcome");
    assert_eq!(r.request_id, "remote-42");
    assert_eq!(world.pushed_to, vec!["http://acme.test/gate"]);
    let payload = &world.payloads[0];
    assert_eq!(payload.company_id, "acme");
    assert_eq!(payload.local_id, "wu");
    assert_eq!(payload.third_party_id, "ext-wu");
    assert_eq!(payload.name, "name-wu");
    assert!(payload.success);
    assert_eq!(payload.timestamp, 1_700_000_000_555);
    assert_eq!(payload.request_id, "req_1700000000555_1000");
}

#[test]
fn remote_denial_passes_through() {
    let mut service = configured("acme");
    let mut world = World::new("t1");
    world.stored_persons.push(person("acme", "wu", "t1"));
    world.webhook_body = Some((3, "not today", "remote-7"));
    let r = verify(&mut service, &mut world, "acme").unwrap();
    assert_eq!(r.status, 3);
    assert!(!r.is_allowed());
    assert_eq!(r.message, "not today");
    assert_eq!(r.request_id, "remote-7");
}

#[test]
fn remote_failures_are_told_apart() {
    let mut service = configured("acme");
    let mut world = World::new("t1");
    world.stored_persons.push(person("acme", "wu", "t1"));

    world.webhook_status = 503;
    assert!(matches!(
        verify(&mut service, &mut world, "acme"),
        Err(ServiceError::RemoteError(503))
    ));
    world.webhook_status = 200;
    world.webhook_body = None;
    assert!(matches!(
        verify(&mut service, &mut world, "acme"),
        Err(ServiceError::RemoteDecodeError)
    ));
    world.webhook_reachable = false;
    assert!(matches!(
        verify(&mut service, &mut world, "acme"),
        Err(ServiceError::RemoteTransport)
    ));
    assert_eq!(world.pushes, 3);
}

#[test]
fn capture_failures_end_the_verification_before_any_score() {
    for (fault, expected) in [
        (FaceError::CaptureFailed, ServiceError::CaptureFailed),
        (FaceError::NoFaceDetected, ServiceError::NoFaceDetected),
        (FaceError::FeatureDecodeError, ServiceError::FeatureDecodeError),
    ] {
        let mut service = configured("acme");
        let mut world = World::new("t1");
        world.live = Err(fault);
        world.stored_persons.push(person("acme", "wu", "t1"));
        let r = verify(&mut service, &mut world, "acme");
        assert_eq!(r.err(), Some(expected));
        assert_eq!(world.scores, 0);
        assert_eq!(world.loads, 0);
        assert_eq!(world.pushes, 0);
    }
}

#[test]
fn corrupt_stored_template_ends_the_walk() {
    let mut service = configured("acme");
    let mut world = World::new("live");
    world.scorer = graded;
    world.stored_persons.push(person("acme", "a", "low"));
    world.stored_persons.push(person("acme", "b", "broken"));
    world.stored_persons.push(person("acme", "c", "better"));
    let r = verify(&mut service, &mut world, "acme");
    assert!(matches!(r, Err(ServiceError::FeatureDecodeError)));
    assert_eq!(world.scores, 2);
    assert_eq!(world.pushes, 0);
    assert_eq!(service.cached_persons(), 0);
}

#[test]
fn match_before_a_corrupt_template_still_matches() {
    let mut service = configured("acme");
    let mut world = World::new("live");
    world.scorer = graded;
    world.stored_persons.push(person("acme", "c", "good"));
    world.stored_persons.push(person("acme", "b", "broken"));
    let r = verify(&mut service, &mut world, "acme").unwrap();
    assert_eq!(r.status, 9);
    assert_eq!(world.matched[0].0, "c");
}

#[test]
fn failing_store_at_person_load_is_a_storage_error() {
    let mut service = configured("acme");
    let mut world = World::new("t1");
    world.store_fails = true;
    let r = verify(&mut service, &mut world, "acme");
    assert!(matches!(r, Err(ServiceError::StorageError)));
    assert_eq!(world.loads, 1);
    assert_eq!(world.pushes, 0);
}

#[test]
fn persons_of_other_tenants_are_never_scored() {
    let mut service = configured("acme");
    set_config(&mut service, config("other", "http://other.test/hook"), Ok(())).unwrap();
    cache_person(&mut service, person("other", "o1", "shared-template"));

    let mut world = World::new("shared-template");
    let r = verify(&mut service, &mut world, "acme").unwrap();
    assert_eq!(r.status, 1);
    assert_eq!(world.scores, 0);
    assert_eq!(world.pushes, 0);

    let mut world = World::new("shared-template");
    let r = verify(&mut service, &mut world, "other").unwrap();
    assert_eq!(r.status, 9);
    assert_eq!(world.pushed_to, vec!["http://other.test/hook"]);
}

#[test]
fn rows_of_another_tenant_handed_in_by_the_store_are_left_out() {
    let mut service = configured("acme");
    let step = service.verify_and_notify("acme");
    let step = match step {
        VerifyStep::Capture(pending) => service.captured(pending, Ok("t".to_string())),
        _ => panic!("a configured tenant begins with the capture"),
    };
    let step = match step {
        VerifyStep::Load(pending) => {
            assert_eq!(pending.company_id(), "acme");
            pending.loaded(Ok(vec![person("other", "o1", "t"), person("acme", "a1", "t")]))
        }
        _ => panic!("an empty cache leads to the store"),
    };
    match step {
        VerifyStep::Score(pending) => {
            assert_eq!(pending.stored_template(), "t");
            assert_eq!(pending.live_template(), "t");
            assert_eq!(pending.tier(), Tier::Store);
            match service.scored(pending, Ok(Similarity::from_bits(1.0f32.to_bits()))) {
                VerifyStep::Push(push) => {
                    assert_eq!(push.payload().local_id, "a1");
                    assert_eq!(push.outcome().person.as_ref().unwrap().company_id, "acme");
                    assert_eq!(push.outcome().company_id, "acme");
                    assert_eq!(push.deadline_ms(), 5000);
                }
                _ => panic!("a score of one is a match"),
            }
        }
        _ => panic!("the tenant's own row is scored"),
    }
}

#[test]
fn unwritten_config_is_not_set() {
    let mut service = FaceAttendanceService::new();
    let r = set_config(&mut service, config("acme", "http://acme.test"), Err(StoreFault));
    assert_eq!(r, Err(ServiceError::StorageError));
    assert!(matches!(service.get_company_config("acme"), Err(ServiceError::NotConfigured)));
}

#[test]
fn config_set_twice_reads_the_same() {
    let mut service = FaceAttendanceService::new();
    set_config(&mut service, config("acme", "http://acme.test"), Ok(())).unwrap();
    let once = service.get_company_config("acme").unwrap();
    set_config(&mut service, config("acme", "http://acme.test"), Ok(())).unwrap();
    let twice = service.get_company_config("acme").unwrap();
    assert_eq!(once.company_id, twice.company_id);
    assert_eq!(once.third_party_api, twice.third_party_api);
    assert_eq!(once.cache_expire_seconds, twice.cache_expire_seconds);
    assert_eq!(once.created_at, twice.created_at);
}

#[test]
fn request_ids_carry_the_clock_and_a_four_digit_suffix() {
    let mut service = configured("acme");
    let before = std::time::SystemTime::now()
        .duration_since(std::time::UNIX_EPOCH)
        .unwrap()
        .as_millis() as i64;
    let mut suffixes = Vec::new();
    for _ in 0..60 {
        let mut world = World::new("stranger");
        let r = verify(&mut service, &mut world, "acme").unwrap();
        let parts: Vec<&str> = r.request_id.split('_').collect();
        assert_eq!(parts.len(), 3);
        assert_eq!(parts[0], "req");
        let millis: i64 = parts[1].parse().unwrap();
        assert!(millis >= before && millis <= before + 60_000);
        let suffix: u32 = parts[2].parse().unwrap();
        assert!((1000..9999).contains(&suffix));
        suffixes.push(suffix);
    }
    suffixes.sort();
    suffixes.dedup();
    assert!(suffixes.len() > 1);
}

#[test]
fn config_without_endpoint_is_refused_before_the_store_is_asked() {
    let mut service = FaceAttendanceService::new();
    match service.add_company_config(config("acme", "")) {
        ConfigStep::Done(result) => assert_eq!(result, Err(ServiceError::NotConfigured)),
        ConfigStep::Save(_) => panic!("nothing is to be written"),
    }
    assert!(matches!(service.get_company_config("acme"), Err(ServiceError::NotConfigured)));
}

#[test]
fn config_to_write_is_the_config_that_was_given() {
    let mut service = FaceAttendanceService::new();
    let mut given = config("acme", "http://acme.test/hook");
    given.cache_expire_seconds = 42;
    given.created_at = 77;
    match service.add_company_config(given) {
        ConfigStep::Save(pending) => {
            assert_eq!(pending.config().company_id, "acme");
            assert_eq!(pending.config().third_party_api, "http://acme.test/hook");
            assert_eq!(pending.config().cache_expire_seconds, 42);
            assert_eq!(pending.config().created_at, 77);
            assert!(matches!(
                service.get_company_config("acme"),
                Err(ServiceError::NotConfigured)
            ));
            service.config_saved(pending, Ok(())).unwrap();
        }
        ConfigStep::Done(_) => panic!("a configuration with an endpoint is written"),
    }
    let read = service.get_company_config("acme").unwrap();
    assert_eq!(read.cache_expire_seconds, 42);
    assert_eq!(read.created_at, 77);
}

#[test]
fn nothing_expires_whatever_the_config_says() {
    let mut service = FaceAttendanceService::new();
    let mut instant = config("acme", "http://acme.test/hook");
    instant.cache_expire_seconds = 0;
    set_config(&mut service, instant, Ok(())).unwrap();
    cache_person(&mut service, person("acme", "li", "t-li"));
    assert_eq!(service.cached_persons(), 1);
    for _ in 0..3 {
        let mut world = World::new("t-li");
        let r = verify(&mut service, &mut world, "acme").unwrap();
        assert_eq!(r.status, 9);
        assert_eq!(world.loads, 0);
        assert_eq!(world.config_lookups, 0);
    }
    assert_eq!(service.get_company_config("acme").unwrap().cache_expire_seconds, 0);
    assert_eq!(service.cached_persons(), 1);
}

#[test]
fn enrolled_person_is_verified_from_the_cache() {
    let mut service = configured("acme");
    let req = RegisterReq {
        company_id: "acme".to_string(),
        name: "Han".to_string(),
        img_path: "/library/han.png".to_string(),
        third_party_id: "member-9".to_string(),
    };
    let step = match service.register_from_img(req) {
        RegisterStep::Extract(pending) => {
            let template = Ok("t-han".to_string());
            pending.extracted_at(template, 1_700_000_000_000, 2222, 1_700_000_000_001)
        }
        _ => panic!("a configured tenant begins with the extraction"),
    };
    let enrolled = match step {
        RegisterStep::Save(pending) => service.saved(pending, Ok(())).unwrap(),
        _ => panic!("a template leads to the writing"),
    };
    assert_eq!(enrolled.local_id, "acme_1700000000000_2222");

    let mut world = World::new("t-han");
    let r = verify(&mut service, &mut world, "acme").unwrap();
    assert_eq!(r.status, 9);
    assert_eq!(world.loads, 0);
    let expected = ("acme_1700000000000_2222".to_string(), 1.0f32.to_bits(), true);
    assert_eq!(world.matched, vec![expected]);
    assert_eq!(world.payloads[0].third_party_id, "member-9");
    assert_eq!(world.payloads[0].name, "Han");
}

#[test]
fn denial_for_a_tenant_without_persons_is_stamped() {
    let mut service = configured("acme");
    let mut world = World::new("stranger");
    let r = verify_at(&mut service, &mut world, "acme", 42, 1000).unwrap();
    assert_eq!(r.status, 1);
    assert_eq!(r.request_id, "req_42_1000");
    assert_eq!(world.scores, 0);
}

#[test]
fn match_is_stamped_when_it_is_made() {
    let mut service = configured("acme");
    let mut world = World::new("t1");
    world.stored_persons.push(person("acme", "zu", "t0"));
    world.stored_persons.push(person("acme", "wu", "t1"));
    let step = service.verify_and_notify("acme");
    let step = match step {
        VerifyStep::Capture(pending) => service.captured(pending, Ok("t1".to_string())),
        _ => panic!("a configured tenant begins with the capture"),
    };
    let step = match step {
        VerifyStep::Load(pending) => pending.loaded_at(Ok(world.stored_persons.clone()), 10, 1111),
        _ => panic!("an empty cache leads to the store"),
    };
    let step = match step {
        VerifyStep::Score(pending) => {
            service.scored_at(pending, Ok(Similarity::from_bits(0.1f32.to_bits())), 20, 2222)
        }
        _ => panic!("the first person is scored"),
    };
    match step {
        VerifyStep::Score(pending) => {
            match service.scored_at(pending, Ok(Similarity::from_bits(0.9f32.to_bits())), 30, 3333)
            {
                VerifyStep::Push(push) => {
                    assert_eq!(push.payload().timestamp, 30);
                    assert_eq!(push.payload().request_id, "req_30_3333");
                    assert_eq!(push.outcome().timestamp, 30);
                    assert_eq!(push.outcome().request_id, "req_30_3333");
                    assert_eq!(push.outcome().similarity.to_bits(), 0.9f32.to_bits());
                    assert!(push.outcome().matched);
                }
                _ => panic!("a score above the threshold is a match"),
            }
        }
        _ => panic!("the second person is scored"),
    }
}

#[test]
fn config_read_reads_through_to_the_store() {
    let mut service = FaceAttendanceService::new();
    assert!(matches!(service.get_company_config("acme"), Err(ServiceError::NotConfigured)));

    let stored = config("acme", "http://stored.test/hook");
    let read = service.read_company_config("acme", Ok(Some(stored))).unwrap();
    assert_eq!(read.company_id, "acme");
    assert_eq!(read.third_party_api, "http://stored.test/hook");
    assert_eq!(read.cache_expire_seconds, 3600);
    assert_eq!(read.created_at, 1_700_000_000_000);
    assert_eq!(
        service.get_company_config("acme").unwrap().third_party_api,
        "http://stored.test/hook"
    );
}

#[test]
fn config_read_is_not_configured_only_where_nothing_is_stored() {
    let mut service = FaceAttendanceService::new();
    assert_eq!(
        service.read_company_config("acme", Ok(None)).err(),
        Some(ServiceError::NotConfigured)
    );
    assert_eq!(
        service.read_company_config("acme", Err(StoreFault)).err(),
        Some(ServiceError::StorageError)
    );
    assert_eq!(
        service.read_company_config("acme", Ok(Some(config("other", "http://o.test")))).err(),
        Some(ServiceError::StorageError)
    );
    assert_eq!(
        service.read_company_config("acme", Ok(Some(config("acme", "")))).err(),
        Some(ServiceError::NotConfigured)
    );
    assert!(matches!(service.get_company_config("acme"), Err(ServiceError::NotConfigured)));
}

#[test]
fn config_read_gives_the_last_config_that_was_set() {
    let mut service = FaceAttendanceService::new();
    set_config(&mut service, config("acme", "http://first.test"), Ok(())).unwrap();
    set_config(&mut service, config("acme", "http://second.test"), Ok(())).unwrap();
    set_config(&mut service, config("acme", "http://unwritten.test"), Err(StoreFault))
        .unwrap_err();
    let stale = config("acme", "http://stale.test");
    let read = service.read_company_config("acme", Ok(Some(stale))).unwrap();
    assert_eq!(read.third_party_api, "http://second.test");
    let read = service.read_company_config("acme", Err(StoreFault)).unwrap();
    assert_eq!(read.third_party_api, "http://second.test");
}
