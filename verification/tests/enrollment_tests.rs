use face_attendance::{
    CompanyConfig, ConfigStep, FaceAttendanceService, FaceError, PersonInfo, RegisterReq,
    RegisterStep, ServiceError, StoreFault,
};

struct World {
    stored_configs: Vec<CompanyConfig>,
    extraction: Result<String, FaceError>,
    save: Result<(), StoreFault>,
    lookups: usize,
    extractions: usize,
    saves: usize,
    extracted_from: Vec<String>,
    written: Vec<PersonInfo>,
    /// What the clock and the generator are taken to give; the real ones
    /// are asked where this is nothing.
    stamp: Option<(i64, u32, i64)>,
}

impl World {
    fn new(feature: &str) -> World {
        World {
            stored_configs: Vec::new(),
            extraction: Ok(feature.to_string()),
            save: Ok(()),
            lookups: 0,
            extractions: 0,
            saves: 0,
            extracted_from: Vec::new(),
            written: Vec::new(),
            stamp: None,
        }
    }
}

fn run(
    service: &mut FaceAttendanceService,
    world: &mut World,
    mut step: RegisterStep,
) -> Result<PersonInfo, ServiceError> {
    loop {
        step = match step {
            RegisterStep::Resolve(pending) => {
                world.lookups += 1;
                let found =
                    world.stored_configs.iter().find(|c| c.company_id == pending.company_id());
                service.tenant_loaded(pending, Ok(found.cloned()))
            }
            RegisterStep::Extract(pending) => {
                world.extractions += 1;
                world.extracted_from.push(pending.img_path().to_string());
                match world.stamp {
                    Some((id_millis, nonce, create_time)) => pending.extracted_at(
                        world.extraction.clone(),
                        id_millis,
                        nonce,
                        create_time,
                    ),
                    None => pending.extracted(world.extraction.clone()),
                }
            }
            RegisterStep::Save(pending) => {
                world.saves += 1;
                world.written.push(pending.person().clone());
                return service.saved(pending, world.save);
            }
            RegisterStep::Done(result) => return result,
        };
    }
}

fn config(id: &str) -> CompanyConfig {
    CompanyConfig {
        company_id: id.to_string(),
        third_party_api: "http://acme.test/hook".to_string(),
        cache_expire_seconds: 3600,
        created_at: 1,
    }
}

fn request(company: &str) -> RegisterReq {
    RegisterReq {
        company_id: company.to_string(),
        name: "Li Lei".to_string(),
        img_path: "/library/li.png".to_string(),
        third_party_id: "member-17".to_string(),
    }
}

fn configured(id: &str) -> FaceAttendanceService {
    let mut service = FaceAttendanceService::new();
    match service.add_company_config(config(id)) {
        ConfigStep::Save(pending) => service.config_saved(pending, Ok(())).unwrap(),
        ConfigStep::Done(_) => panic!("a configuration with an endpoint is written"),
    }
    service
}

#[test]
fn enrollment_for_tenant_without_stored_config_is_not_configured() {
    let mut service = FaceAttendanceService::new();
    let mut world = World::new("[0.1]");
    let step = service.register_from_img(request("acme"));
    let r = run(&mut service, &mut world, step);
    assert_eq!(r.err(), Some(ServiceError::NotConfigured));
    assert_eq!(world.lookups, 1);
    assert_eq!(world.extractions, 0);
    assert_eq!(world.saves, 0);
    assert_eq!(service.cached_persons(), 0);
}

#[test]
fn enrollment_returns_the_whole_person() {
    let mut service = configured("acme");
    let mut world = World::new("[0.25,0.5]");
    world.stamp = Some((1_700_000_000_123, 4821, 1_700_000_000_124));
    let step = service.register_from_img(request("acme"));
    let person = run(&mut service, &mut world, step).unwrap();
    assert_eq!(person.local_id, "acme_1700000000123_4821");
    assert_eq!(person.company_id, "acme");
    assert_eq!(person.name, "Li Lei");
    assert_eq!(person.img_path, "/library/li.png");
    assert_eq!(person.third_party_id, "member-17");
    assert_eq!(person.face_feature, "[0.25,0.5]");
    assert_eq!(person.create_time, 1_700_000_000_124);
    assert_eq!(world.extracted_from, vec!["/library/li.png"]);
    assert_eq!(world.lookups, 0);
}

#[test]
fn enrolled_person_is_written_then_cached() {
    let mut service = configured("acme");
    let mut world = World::new("[0.25,0.5]");
    world.stamp = Some((5, 1000, 5));
    let step = service.register_from_img(request("acme"));
    let person = run(&mut service, &mut world, step).unwrap();
    assert_eq!(world.saves, 1);
    assert_eq!(world.written[0].local_id, person.local_id);
    assert_eq!(world.written[0].face_feature, "[0.25,0.5]");
    assert_eq!(service.cached_persons(), 1);
}

#[test]
fn unwritten_person_is_not_cached() {
    let mut service = configured("acme");
    let mut world = World::new("[0.25,0.5]");
    world.save = Err(StoreFault);
    let step = service.register_from_img(request("acme"));
    let r = run(&mut service, &mut world, step);
    assert_eq!(r.err(), Some(ServiceError::StorageError));
    assert_eq!(world.saves, 1);
    assert_eq!(service.cached_persons(), 0);
}

#[test]
fn provider_failures_surface_unchanged() {
    for (fault, expected) in [
        (FaceError::NoFaceDetected, ServiceError::NoFaceDetected),
        (FaceError::CaptureFailed, ServiceError::CaptureFailed),
        (FaceError::FeatureDecodeError, ServiceError::FeatureDecodeError),
    ] {
        let mut service = configured("acme");
        let mut world = World::new("");
        world.extraction = Err(fault);
        let step = service.register_from_img(request("acme"));
        let r = run(&mut service, &mut world, step);
        assert_eq!(r.err(), Some(expected));
        assert_eq!(world.saves, 0);
        assert_eq!(service.cached_persons(), 0);
    }
}

#[test]
fn enrollment_reads_the_config_through_from_the_store() {
    let mut service = FaceAttendanceService::new();
    let mut world = World::new("[1.0]");
    world.stored_configs.push(config("acme"));
    let step = service.register_from_img(request("acme"));
    let person = run(&mut service, &mut world, step).unwrap();
    assert_eq!(person.company_id, "acme");
    assert_eq!(world.lookups, 1);
    assert!(service.get_company_config("acme").is_ok());
    let step = service.register_from_img(request("acme"));
    run(&mut service, &mut world, step).unwrap();
    assert_eq!(world.lookups, 1);
}

#[test]
fn colliding_local_id_replaces_the_cached_person() {
    let mut service = configured("acme");
    let mut world = World::new("first-template");
    world.stamp = Some((5, 1000, 5));
    let step = service.register_from_img(request("acme"));
    run(&mut service, &mut world, step).unwrap();
    world.extraction = Ok("second-template".to_string());
    world.stamp = Some((5, 1000, 6));
    let step = service.register_from_img(request("acme"));
    let second = run(&mut service, &mut world, step).unwrap();
    assert_eq!(second.local_id, "acme_5_1000");
    assert_eq!(second.face_feature, "second-template");
    assert_eq!(service.cached_persons(), 1);
}

#[test]
fn local_ids_carry_the_clock_and_a_four_digit_suffix() {
    let mut service = configured("acme");
    let before = std::time::SystemTime::now()
        .duration_since(std::time::UNIX_EPOCH)
        .unwrap()
        .as_millis() as i64;
    let mut suffixes = Vec::new();
    for _ in 0..60 {
        let mut world = World::new("[0.5]");
        let step = service.register_from_img(request("acme"));
        let person = run(&mut service, &mut world, step).unwrap();
        let parts: Vec<&str> = person.local_id.split('_').collect();
        assert_eq!(parts.len(), 3);
        assert_eq!(parts[0], "acme");
        let millis: i64 = parts[1].parse().unwrap();
        assert!(millis >= before && millis <= before + 60_000);
        assert!(person.create_time >= millis && person.create_time <= millis + 60_000);
        assert_eq!(parts[2].len(), 4);
        let suffix: u32 = parts[2].parse().unwrap();
        assert!((1000..9999).contains(&suffix));
        suffixes.push(suffix);
    }
    suffixes.sort();
    suffixes.dedup();
    assert!(suffixes.len() > 1);
}

#[test]
fn small_draw_still_gives_a_four_digit_suffix() {
    let mut service = configured("acme");
    let mut world = World::new("[0.5]");
    world.stamp = Some((0, 7, 0));
    let step = service.register_from_img(request("acme"));
    let person = run(&mut service, &mut world, step).unwrap();
    assert_eq!(person.local_id, "acme_0_0007");
    assert_eq!(person.local_id.rsplit('_').next().unwrap().len(), 4);
}
