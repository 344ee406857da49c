//! A whole verification: what it ends with, given how its surroundings
//! answer, and the proof that taking it step by step ends with the same.

use crate::config_store::{configs_after_resolve, resolved};
use crate::error::{FaceError, ServiceError, StoreFault};
use crate::model::{CompanyConfigView, MatchOutcomeView, PersonInfoView, ThirdPartyRespView};
use crate::notify::{decision_of, PushOutcomeView};
use crate::person_cache::{of_tenant, stored};
use crate::protocol::{
    after_capture, after_load, after_push, after_resolve, after_score, begin_step,
    cache_after_score, deny_decision, outcome_of, scan_from, LoadView, ScanView, Stamp, Tier,
    VerifyStepView,
};
use crate::score::Similarity;
use crate::service::ServiceView;
use vstd::prelude::*;

verus! {

/// How the surroundings answer during one verification.
pub struct Surroundings {
    /// What the store gives for the tenant's configuration.
    pub config: Result<Option<CompanyConfigView>, StoreFault>,
    /// What the capture of the live sample gives.
    pub capture: Result<Seq<char>, FaceError>,
    /// What the provider gives for the live template and a stored one.
    pub score: spec_fn(Seq<char>, Seq<char>) -> Result<Similarity, FaceError>,
    /// What the store gives when the tenant's persons are loaded.
    pub rows: Result<Seq<PersonInfoView>, StoreFault>,
    /// What the clock and the random generator give when the verification
    /// comes to its result.
    pub stamp: Stamp,
    /// What becomes of the push.
    pub reply: PushOutcomeView,
}

/// What one verification came to.
pub struct Run {
    /// What the verification ends with.
    pub result: Result<ThirdPartyRespView, ServiceError>,
    /// The state that it leaves the service in.
    pub service: ServiceView,
    /// The match that it pushed, if it pushed one.
    pub outcome: Option<MatchOutcomeView>,
    /// How often it asked the store for the tenant's configuration.
    pub lookups: nat,
    /// How often it asked the provider for a live sample.
    pub captures: nat,
    /// How often it asked the provider for a score.
    pub scores: nat,
    /// How often it loaded the tenant's persons from the store.
    pub loads: nat,
    /// How often it pushed to the tenant's endpoint.
    pub pushes: nat,
}

/// What a walk through persons comes to.
pub enum Walk {
    /// The person at this place is the first whose score reaches the
    /// threshold.
    Hit(int, Similarity),
    /// The provider failed before any score reached the threshold.
    Fault(FaceError),
    /// No score reached the threshold.
    Miss,
}

/// The walk through `candidates` from place `from` on: person by person in
/// their order, up to the first score that reaches the threshold or the
/// first failure of the provider.
pub open spec fn walk_from(
    candidates: Seq<PersonInfoView>,
    live: Seq<char>,
    score: spec_fn(Seq<char>, Seq<char>) -> Result<Similarity, FaceError>,
    from: int,
) -> Walk
    decreases candidates.len() - from,
{
    if from < 0 || from >= candidates.len() {
        Walk::Miss
    } else {
        match score(live, candidates[from].face_feature) {
            Err(e) => Walk::Fault(e),
            Ok(similarity) => if similarity.is_match() {
                Walk::Hit(from, similarity)
            } else {
                walk_from(candidates, live, score, from + 1)
            },
        }
    }
}

/// The persons that the walk from place `from` on gets scored: every person
/// up to and with the first whose score reaches the threshold or fails, and
/// nobody after.
pub open spec fn scored_in(
    candidates: Seq<PersonInfoView>,
    live: Seq<char>,
    score: spec_fn(Seq<char>, Seq<char>) -> Result<Similarity, FaceError>,
    from: int,
) -> nat
    decreases candidates.len() - from,
{
    if from < 0 || from >= candidates.len() {
        0
    } else {
        match score(live, candidates[from].face_feature) {
            Err(_) => 1,
            Ok(similarity) => if similarity.is_match() {
                1
            } else {
                1 + scored_in(candidates, live, score, from + 1)
            },
        }
    }
}

/// A verification that ends without a push.
pub open spec fn ended(
    result: Result<ThirdPartyRespView, ServiceError>,
    service: ServiceView,
    loads: nat,
) -> Run {
    Run { result, service, outcome: None, lookups: 0, captures: 0, scores: 0, loads, pushes: 0 }
}

/// A verification that pushes the match of `person` and ends with the
/// reading of the attempt.
pub open spec fn pushed(
    config: CompanyConfigView,
    person: PersonInfoView,
    similarity: Similarity,
    service: ServiceView,
    env: Surroundings,
    loads: nat,
) -> Run {
    Run {
        result: decision_of(env.reply),
        service,
        outcome: Some(outcome_of(config, person, similarity, env.stamp)),
        lookups: 0,
        captures: 0,
        scores: 0,
        loads,
        pushes: 1,
    }
}

/// The service with a person stored in its cache.
pub open spec fn caching(service: ServiceView, person: PersonInfoView) -> ServiceView {
    ServiceView { configs: service.configs, cache: stored(service.cache, person) }
}

/// The part of a verification that works on the persistent store, reached
/// when no cached person matched. The tenant's persons are loaded once and
/// walked in the order in which they came. A match is cached and pushed; no
/// match ends with the library's own denial, and nothing is pushed.
pub open spec fn store_phase(
    config: CompanyConfigView,
    live: Seq<char>,
    service: ServiceView,
    env: Surroundings,
) -> Run {
    match env.rows {
        Err(_) => ended(Err(ServiceError::StorageError), service, 1),
        Ok(rows) => {
            let listed = of_tenant(rows, config.company_id);
            let run = match walk_from(listed, live, env.score, 0) {
                Walk::Fault(e) => ended(Err(ServiceError::of_face(e)), service, 1),
                Walk::Hit(i, similarity) => pushed(
                    config,
                    listed[i],
                    similarity,
                    caching(service, listed[i]),
                    env,
                    1,
                ),
                Walk::Miss => ended(Ok(deny_decision(env.stamp)), service, 1),
            };
            Run { scores: scored_in(listed, live, env.score, 0), ..run }
        },
    }
}

/// The part of a verification that works on the cache. The tenant's cached
/// persons are walked in the order of the cache. A match is pushed, and the
/// store is not touched; no match leads to the store.
pub open spec fn memory_phase(
    config: CompanyConfigView,
    live: Seq<char>,
    service: ServiceView,
    env: Surroundings,
) -> Run {
    let cached = of_tenant(service.cache, config.company_id);
    let run = match walk_from(cached, live, env.score, 0) {
        Walk::Fault(e) => ended(Err(ServiceError::of_face(e)), service, 0),
        Walk::Hit(i, similarity) => pushed(config, cached[i], similarity, service, env, 0),
        Walk::Miss => store_phase(config, live, service, env),
    };
    Run { scores: scored_in(cached, live, env.score, 0) + run.scores, ..run }
}

/// The part of a verification that follows the tenant's configuration: the
/// capture, and the walks after it.
pub open spec fn capture_phase(config: CompanyConfigView, service: ServiceView, env: Surroundings)
    -> Run {
    let rest = match env.capture {
        Err(e) => ended(Err(ServiceError::of_face(e)), service, 0),
        Ok(live) => memory_phase(config, live, service, env),
    };
    Run { captures: 1, ..rest }
}

/// The service after a tenant's configuration was read through.
pub open spec fn resolving(service: ServiceView, company_id: Seq<char>, env: Surroundings)
    -> ServiceView {
    ServiceView {
        configs: configs_after_resolve(service.configs, company_id, env.config),
        cache: service.cache,
    }
}

/// One verification for `company_id` by a service in state `service`, in
/// surroundings that answer as `env` says. The store is asked for the
/// configuration only where memory holds none for the tenant.
pub open spec fn verification(service: ServiceView, company_id: Seq<char>, env: Surroundings)
    -> Run {
    let lookups: nat = if service.configs.contains_key(company_id) {
        0
    } else {
        1
    };
    let kept = resolving(service, company_id, env);
    let run = match resolved(service.configs, company_id, env.config) {
        Err(e) => ended(Err(e), kept, 0),
        Ok(config) => capture_phase(config, kept, env),
    };
    Run { lookups, ..run }
}

/// The persons that a walk has before it.
pub open spec fn ahead(scan: ScanView) -> nat {
    if scan.cursor < scan.candidates.len() {
        (scan.candidates.len() - scan.cursor) as nat
    } else {
        0
    }
}

/// The persons of the tenant that the store gives.
pub open spec fn listed_len(env: Surroundings, company_id: Seq<char>) -> nat {
    match env.rows {
        Ok(rows) => of_tenant(rows, company_id).len(),
        Err(_) => 0,
    }
}

/// A bound on the steps that a verification still takes once it has the
/// tenant's configuration.
pub open spec fn steps_after_config(
    step: VerifyStepView,
    cache: Seq<PersonInfoView>,
    env: Surroundings,
) -> nat {
    match step {
        VerifyStepView::Resolve(_) => 0,
        VerifyStepView::Done(_) => 0,
        VerifyStepView::Push(_) => 1,
        VerifyStepView::Score(scan) => match scan.tier {
            Tier::Store => 2 + ahead(scan),
            Tier::Memory => 5 + listed_len(env, scan.config.company_id) + ahead(scan),
        },
        VerifyStepView::Load(load) => 4 + listed_len(env, load.config.company_id),
        VerifyStepView::Capture(config) => 6 + listed_len(env, config.company_id)
            + of_tenant(cache, config.company_id).len(),
    }
}

/// A bound on the steps that a verification still takes.
pub open spec fn steps_left(step: VerifyStepView, service: ServiceView, env: Surroundings) -> nat {
    match step {
        VerifyStepView::Resolve(company_id) => 1 + steps_after_config(
            after_resolve(service.configs, company_id, env.config),
            service.cache,
            env,
        ),
        _ => steps_after_config(step, service.cache, env),
    }
}

/// A verification taken step by step from `step` on: every request is
/// answered as `env` says, and the step that follows the answer is taken
/// next, until the end.
pub open spec fn drive(step: VerifyStepView, service: ServiceView, env: Surroundings) -> Run
    decreases steps_left(step, service, env),
{
    match step {
        VerifyStepView::Done(result) => ended(result, service, 0),
        VerifyStepView::Resolve(company_id) => {
            let rest = drive(
                after_resolve(service.configs, company_id, env.config),
                resolving(service, company_id, env),
                env,
            );
            Run { lookups: rest.lookups + 1, ..rest }
        },
        VerifyStepView::Capture(config) => {
            let rest = drive(after_capture(service.cache, config, env.capture), service, env);
            Run { captures: rest.captures + 1, ..rest }
        },
        VerifyStepView::Score(scan) => {
            let answer = (env.score)(scan.live, scan.candidates[scan.cursor].face_feature);
            let rest = drive(
                after_score(scan, answer, env.stamp),
                ServiceView {
                    configs: service.configs,
                    cache: cache_after_score(service.cache, scan, answer),
                },
                env,
            );
            Run { scores: rest.scores + 1, ..rest }
        },
        VerifyStepView::Load(load) => {
            let rest = drive(after_load(load, env.rows, env.stamp), service, env);
            Run { loads: rest.loads + 1, ..rest }
        },
        VerifyStepView::Push(push) => Run {
            result: after_push(env.reply),
            service,
            outcome: Some(push.outcome),
            lookups: 0,
            captures: 0,
            scores: 0,
            loads: 0,
            pushes: 1,
        },
    }
}

/// What the rest of a walk through the store's persons comes to.
pub open spec fn store_rest(
    config: CompanyConfigView,
    live: Seq<char>,
    candidates: Seq<PersonInfoView>,
    cursor: int,
    service: ServiceView,
    env: Surroundings,
) -> Run {
    let run = match walk_from(candidates, live, env.score, cursor) {
        Walk::Fault(e) => ended(Err(ServiceError::of_face(e)), service, 0),
        Walk::Hit(i, similarity) => pushed(
            config,
            candidates[i],
            similarity,
            caching(service, candidates[i]),
            env,
            0,
        ),
        Walk::Miss => ended(Ok(deny_decision(env.stamp)), service, 0),
    };
    Run { scores: scored_in(candidates, live, env.score, cursor), ..run }
}

/// Taking a walk through the store's persons step by step, from the person
/// at `cursor` on, comes to what `store_rest` says.
pub proof fn lemma_drive_store(
    config: CompanyConfigView,
    live: Seq<char>,
    candidates: Seq<PersonInfoView>,
    cursor: int,
    service: ServiceView,
    env: Surroundings,
)
    requires
        0 <= cursor <= candidates.len(),
    ensures
        drive(scan_from(config, live, candidates, cursor, Tier::Store, env.stamp), service, env)
            == store_rest(config, live, candidates, cursor, service, env),
    decreases candidates.len() - cursor,
{
    if cursor < candidates.len() {
        let scan = ScanView { config, live, candidates, cursor, tier: Tier::Store };
        let answer = (env.score)(live, candidates[cursor].face_feature);
        let next = ServiceView {
            configs: service.configs,
            cache: cache_after_score(service.cache, scan, answer),
        };
        assert(drive(VerifyStepView::Score(scan), service, env) == {
            let rest = drive(after_score(scan, answer, env.stamp), next, env);
            Run { scores: rest.scores + 1, ..rest }
        });
        match answer {
            Err(e) => {
                assert(next == service);
                assert(drive(VerifyStepView::Done(Err(ServiceError::of_face(e))), service, env)
                    == ended(Err(ServiceError::of_face(e)), service, 0));
            },
            Ok(similarity) => {
                if similarity.is_match() {
                    assert(drive(after_score(scan, answer, env.stamp), next, env) == pushed(
                        config,
                        candidates[cursor],
                        similarity,
                        next,
                        env,
                        0,
                    ));
                } else {
                    assert(next == service);
                    lemma_drive_store(config, live, candidates, cursor + 1, service, env);
                }
            },
        }
    } else {
        assert(drive(VerifyStepView::Done(Ok(deny_decision(env.stamp))), service, env) == ended(
            Ok(deny_decision(env.stamp)),
            service,
            0,
        ));
    }
}

/// What the rest of a walk through the cached persons comes to.
pub open spec fn memory_rest(
    config: CompanyConfigView,
    live: Seq<char>,
    candidates: Seq<PersonInfoView>,
    cursor: int,
    service: ServiceView,
    env: Surroundings,
) -> Run {
    let run = match walk_from(candidates, live, env.score, cursor) {
        Walk::Fault(e) => ended(Err(ServiceError::of_face(e)), service, 0),
        Walk::Hit(i, similarity) => pushed(config, candidates[i], similarity, service, env, 0),
        Walk::Miss => store_phase(config, live, service, env),
    };
    Run { scores: scored_in(candidates, live, env.score, cursor) + run.scores, ..run }
}

/// Taking the load of the tenant's persons and what follows it step by step
/// comes to what `store_phase` says.
pub proof fn lemma_drive_load(
    config: CompanyConfigView,
    live: Seq<char>,
    service: ServiceView,
    env: Surroundings,
)
    ensures
        drive(VerifyStepView::Load(LoadView { config, live }), service, env) == store_phase(
            config,
            live,
            service,
            env,
        ),
{
    let load = LoadView { config, live };
    assert(drive(VerifyStepView::Load(load), service, env) == {
        let rest = drive(after_load(load, env.rows, env.stamp), service, env);
        Run { loads: rest.loads + 1, ..rest }
    });
    match env.rows {
        Err(_) => {
            assert(drive(after_load(load, env.rows, env.stamp), service, env) == ended(
                Err(ServiceError::StorageError),
                service,
                0,
            ));
        },
        Ok(rows) => {
            let listed = of_tenant(rows, config.company_id);
            lemma_drive_store(config, live, listed, 0, service, env);
        },
    }
}

/// Taking a walk through the cached persons step by step, from the person at
/// `cursor` on, comes to what `memory_rest` says.
pub proof fn lemma_drive_memory(
    config: CompanyConfigView,
    live: Seq<char>,
    candidates: Seq<PersonInfoView>,
    cursor: int,
    service: ServiceView,
    env: Surroundings,
)
    requires
        0 <= cursor <= candidates.len(),
    ensures
        drive(scan_from(config, live, candidates, cursor, Tier::Memory, env.stamp), service, env)
            == memory_rest(config, live, candidates, cursor, service, env),
    decreases candidates.len() - cursor,
{
    if cursor < candidates.len() {
        let scan = ScanView { config, live, candidates, cursor, tier: Tier::Memory };
        let answer = (env.score)(live, candidates[cursor].face_feature);
        let next = ServiceView {
            configs: service.configs,
            cache: cache_after_score(service.cache, scan, answer),
        };
        assert(next == service);
        assert(drive(VerifyStepView::Score(scan), service, env) == {
            let rest = drive(after_score(scan, answer, env.stamp), next, env);
            Run { scores: rest.scores + 1, ..rest }
        });
        match answer {
            Err(e) => {
                assert(drive(VerifyStepView::Done(Err(ServiceError::of_face(e))), service, env)
                    == ended(Err(ServiceError::of_face(e)), service, 0));
            },
            Ok(similarity) => {
                if similarity.is_match() {
                    assert(drive(after_score(scan, answer, env.stamp), service, env) == pushed(
                        config,
                        candidates[cursor],
                        similarity,
                        service,
                        env,
                        0,
                    ));
                } else {
                    lemma_drive_memory(config, live, candidates, cursor + 1, service, env);
                }
            },
        }
    } else {
        lemma_drive_load(config, live, service, env);
    }
}

/// Taking the capture and what follows it step by step comes to what
/// `capture_phase` says.
pub proof fn lemma_drive_capture(
    config: CompanyConfigView,
    service: ServiceView,
    env: Surroundings,
)
    ensures
        drive(VerifyStepView::Capture(config), service, env) == capture_phase(config, service, env),
{
    assert(drive(VerifyStepView::Capture(config), service, env) == {
        let rest = drive(after_capture(service.cache, config, env.capture), service, env);
        Run { captures: rest.captures + 1, ..rest }
    });
    match env.capture {
        Err(e) => {
            assert(drive(VerifyStepView::Done(Err(ServiceError::of_face(e))), service, env)
                == ended(Err(ServiceError::of_face(e)), service, 0));
        },
        Ok(live) => {
            lemma_drive_memory(
                config,
                live,
                of_tenant(service.cache, config.company_id),
                0,
                service,
                env,
            );
        },
    }
}

/// Taking a verification step by step, from its first step to its end, comes
/// to what `verification` says.
pub proof fn lemma_steps_make_verification(
    service: ServiceView,
    company_id: Seq<char>,
    env: Surroundings,
)
    ensures
        drive(begin_step(service.configs, company_id), service, env) == verification(
            service,
            company_id,
            env,
        ),
{
    let kept = resolving(service, company_id, env);
    if service.configs.contains_key(company_id) {
        assert(kept == service);
        lemma_drive_capture(service.configs[company_id], service, env);
    } else {
        let next = after_resolve(service.configs, company_id, env.config);
        assert(drive(VerifyStepView::Resolve(company_id), service, env) == {
            let rest = drive(next, kept, env);
            Run { lookups: rest.lookups + 1, ..rest }
        });
        match resolved(service.configs, company_id, env.config) {
            Err(e) => {
                assert(drive(VerifyStepView::Done(Err(e)), kept, env) == ended(Err(e), kept, 0));
            },
            Ok(config) => {
                lemma_drive_capture(config, kept, env);
            },
        }
    }
}

} // verus!

verus! {

/// What the provider gives for the live template and the person at place `j`.
pub open spec fn answer_at(
    candidates: Seq<PersonInfoView>,
    live: Seq<char>,
    score: spec_fn(Seq<char>, Seq<char>) -> Result<Similarity, FaceError>,
    j: int,
) -> Result<Similarity, FaceError> {
    score(live, candidates[j].face_feature)
}

/// The person at place `j` gets a score, and the score reaches the threshold.
pub open spec fn matches_at(
    candidates: Seq<PersonInfoView>,
    live: Seq<char>,
    score: spec_fn(Seq<char>, Seq<char>) -> Result<Similarity, FaceError>,
    j: int,
) -> bool {
    answer_at(candidates, live, score, j) matches Ok(similarity) && similarity.is_match()
}

/// The person at place `j` gets a score, and the score is below the
/// threshold.
pub open spec fn below_at(
    candidates: Seq<PersonInfoView>,
    live: Seq<char>,
    score: spec_fn(Seq<char>, Seq<char>) -> Result<Similarity, FaceError>,
    j: int,
) -> bool {
    answer_at(candidates, live, score, j) matches Ok(similarity) && !similarity.is_match()
}

/// Every person from place `from` up to, and without, place `to` gets a
/// score below the threshold.
pub open spec fn all_below(
    candidates: Seq<PersonInfoView>,
    live: Seq<char>,
    score: spec_fn(Seq<char>, Seq<char>) -> Result<Similarity, FaceError>,
    from: int,
    to: int,
) -> bool {
    forall|j: int| from <= j < to ==> #[trigger] below_at(candidates, live, score, j)
}

/// What a walk comes to, said of the persons: a hit is the first person
/// whose score reaches the threshold, with nothing but lower scores before
/// it; a fault is the first failure, with nothing but lower scores before
/// it; a miss is nothing but lower scores.
pub proof fn lemma_walk(
    candidates: Seq<PersonInfoView>,
    live: Seq<char>,
    score: spec_fn(Seq<char>, Seq<char>) -> Result<Similarity, FaceError>,
    from: int,
)
    requires
        0 <= from <= candidates.len(),
    ensures
        match walk_from(candidates, live, score, from) {
            Walk::Hit(i, similarity) => from <= i < candidates.len() && answer_at(
                candidates,
                live,
                score,
                i,
            ) == Ok::<Similarity, FaceError>(similarity) && similarity.is_match() && all_below(
                candidates,
                live,
                score,
                from,
                i,
            ),
            Walk::Fault(e) => exists|i: int|
                from <= i < candidates.len() && #[trigger] answer_at(candidates, live, score, i)
                    == Err::<Similarity, FaceError>(e) && all_below(
                    candidates,
                    live,
                    score,
                    from,
                    i,
                ),
            Walk::Miss => all_below(candidates, live, score, from, candidates.len() as int),
        },
    decreases candidates.len() - from,
{
    if from < candidates.len() {
        match answer_at(candidates, live, score, from) {
            Err(e) => {
                assert(answer_at(candidates, live, score, from) == Err::<Similarity, FaceError>(e));
            },
            Ok(similarity) => {
                if !similarity.is_match() {
                    lemma_walk(candidates, live, score, from + 1);
                    assert(below_at(candidates, live, score, from));
                    match walk_from(candidates, live, score, from + 1) {
                        Walk::Fault(e) => {
                            let i = choose|i: int|
                                from + 1 <= i < candidates.len() && #[trigger] answer_at(
                                    candidates,
                                    live,
                                    score,
                                    i,
                                ) == Err::<Similarity, FaceError>(e) && all_below(
                                    candidates,
                                    live,
                                    score,
                                    from + 1,
                                    i,
                                );
                            assert(all_below(candidates, live, score, from, i));
                        },
                        _ => {},
                    }
                }
            },
        }
    }
}

/// How many persons a walk gets scored: all that are there after nothing but
/// lower scores, and else all up to and with the first person whose score
/// reaches the threshold or fails.
pub proof fn lemma_scored_in(
    candidates: Seq<PersonInfoView>,
    live: Seq<char>,
    score: spec_fn(Seq<char>, Seq<char>) -> Result<Similarity, FaceError>,
    from: int,
    to: int,
)
    requires
        0 <= from <= to <= candidates.len(),
        all_below(candidates, live, score, from, to),
    ensures
        scored_in(candidates, live, score, from) <= candidates.len() - from,
        to == candidates.len() ==> scored_in(candidates, live, score, from) == to - from,
        to < candidates.len() && !below_at(candidates, live, score, to) ==> scored_in(
            candidates,
            live,
            score,
            from,
        ) == to - from + 1,
    decreases candidates.len() - from,
{
    if from < candidates.len() {
        if from < to {
            assert(below_at(candidates, live, score, from));
            lemma_scored_in(candidates, live, score, from + 1, to);
        } else {
            match answer_at(candidates, live, score, from) {
                Err(_) => {},
                Ok(similarity) => {
                    if !similarity.is_match() {
                        lemma_scored_in(candidates, live, score, from + 1, from + 1);
                    }
                },
            }
        }
    }
}

/// A person whose score reaches the threshold, after nothing but lower
/// scores, is what the walk hits.
pub proof fn lemma_walk_hits(
    candidates: Seq<PersonInfoView>,
    live: Seq<char>,
    score: spec_fn(Seq<char>, Seq<char>) -> Result<Similarity, FaceError>,
    from: int,
    i: int,
)
    requires
        0 <= from <= i < candidates.len(),
        all_below(candidates, live, score, from, i),
        matches_at(candidates, live, score, i),
    ensures
        walk_from(candidates, live, score, from) == Walk::Hit(
            i,
            answer_at(candidates, live, score, i)->Ok_0,
        ),
    decreases i - from,
{
    if from < i {
        assert(below_at(candidates, live, score, from));
        lemma_walk_hits(candidates, live, score, from + 1, i);
    }
}

/// Nothing but lower scores is a miss.
pub proof fn lemma_walk_misses(
    candidates: Seq<PersonInfoView>,
    live: Seq<char>,
    score: spec_fn(Seq<char>, Seq<char>) -> Result<Similarity, FaceError>,
    from: int,
)
    requires
        0 <= from <= candidates.len(),
        all_below(candidates, live, score, from, candidates.len() as int),
    ensures
        walk_from(candidates, live, score, from) == Walk::Miss,
    decreases candidates.len() - from,
{
    if from < candidates.len() {
        assert(below_at(candidates, live, score, from));
        lemma_walk_misses(candidates, live, score, from + 1);
    }
}

} // verus!
