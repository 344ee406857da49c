//! What holds of every verification, every enrollment and every change of a
//! tenant's configuration.

use crate::config_store::{resolved, well_keyed};
use crate::enrollment::{enrollment, Answers, Enrolled};
use crate::error::{FaceError, ServiceError, StoreFault};
use crate::model::{CompanyConfigView, PersonInfoView, RegisterReqView, ThirdPartyRespView};
use crate::notify::{decision_of, PushOutcomeView};
use crate::ident::local_id_text;
use crate::person_cache::{
    has_key, lemma_of_tenant_at, lemma_of_tenant_members, lemma_of_tenant_take, lemma_position,
    lemma_stored, lemma_stored_is_listed, lemma_stored_keeps_others, of_tenant, position, stored,
};
use crate::protocol::{deny_decision, outcome_of};
use crate::run::{
    all_below, answer_at, below_at, lemma_scored_in, lemma_walk, lemma_walk_hits,
    lemma_walk_misses, listed_len, matches_at, verification, walk_from, Run, Surroundings, Walk,
};
use crate::score::{Similarity, ONE_BITS};
use crate::service::{begin_put, configs_after_save, ServiceView};
use vstd::prelude::*;

verus! {

/// For a tenant without configuration, in memory or in the store, a
/// verification ends with `NotConfigured` once the store has said so: no
/// capture, no load of persons, no push, and the service stays as it is.
pub proof fn lemma_unconfigured_tenant(
    service: ServiceView,
    company_id: Seq<char>,
    env: Surroundings,
)
    requires
        !service.configs.contains_key(company_id),
        env.config == Ok::<Option<CompanyConfigView>, StoreFault>(None),
    ensures
        verification(service, company_id, env) == (Run {
            result: Err(ServiceError::NotConfigured),
            service,
            outcome: None,
            lookups: 1,
            captures: 0,
            scores: 0,
            loads: 0,
            pushes: 0,
        }),
{
    assert(crate::run::resolving(service, company_id, env) == service);
}

/// For a tenant without configuration, in memory or in the store, an
/// enrollment ends with `NotConfigured` once the store has said so: the
/// provider is not asked for a template, nothing is written, and the service
/// stays as it is.
pub proof fn lemma_unconfigured_enrollment(
    service: ServiceView,
    req: RegisterReqView,
    env: Answers,
)
    requires
        !service.configs.contains_key(req.company_id),
        env.config == Ok::<Option<CompanyConfigView>, StoreFault>(None),
    ensures
        enrollment(service.configs, service.cache, req, env) == (Enrolled {
            result: Err(ServiceError::NotConfigured),
            configs: service.configs,
            cache: service.cache,
            extracted: false,
            saved: false,
        }),
{
}

/// A person that was enrolled is returned whole, as it was written, with the
/// template that the provider gave; it is among the cached persons of its
/// tenant, and every cached person with another key is as it was.
pub proof fn lemma_enrolled_person_is_cached(
    service: ServiceView,
    req: RegisterReqView,
    env: Answers,
    feature: Seq<char>,
)
    requires
        resolved(service.configs, req.company_id, env.config) is Ok,
        env.extracted == Ok::<Seq<char>, FaceError>(feature),
        env.saved == Ok::<(), StoreFault>(()),
    ensures
        ({
            let done = enrollment(service.configs, service.cache, req, env);
            &&& done.result matches Ok(person)
            &&& person.company_id == req.company_id
            &&& person.name == req.name
            &&& person.img_path == req.img_path
            &&& person.third_party_id == req.third_party_id
            &&& person.face_feature == feature
            &&& person.create_time == env.stamp.create_time
            &&& person.local_id == local_id_text(
                req.company_id,
                env.stamp.id_millis,
                env.stamp.nonce,
            )
            &&& done.cache == stored(service.cache, person)
            &&& of_tenant(done.cache, req.company_id).contains(person)
            &&& forall|q: PersonInfoView|
                service.cache.contains(q) && !has_key(q, person.company_id, person.local_id)
                    ==> #[trigger] done.cache.contains(q)
        }),
{
    let done = enrollment(service.configs, service.cache, req, env);
    let person = done.result->Ok_0;
    lemma_stored_is_listed(service.cache, person);
    lemma_stored_keeps_others(service.cache, person);
}

/// An enrollment that the provider or the store failed leaves the cache as
/// it was, and a person is written only after its template was extracted.
pub proof fn lemma_failed_enrollment_caches_nothing(
    service: ServiceView,
    req: RegisterReqView,
    env: Answers,
)
    ensures
        ({
            let done = enrollment(service.configs, service.cache, req, env);
            &&& done.result is Err ==> done.cache == service.cache
            &&& done.saved ==> done.extracted && env.extracted is Ok
            &&& done.result is Ok ==> done.saved && env.saved is Ok
        }),
{
}

/// The first person whose score reaches the threshold after a sample that
/// equals a stored template: where equal templates score one, and nobody
/// walked before the person fails or reaches the threshold with less than
/// one, the walk hits with a score of one.
pub proof fn lemma_walk_finds_equal_template(
    candidates: Seq<PersonInfoView>,
    live: Seq<char>,
    score: spec_fn(Seq<char>, Seq<char>) -> Result<Similarity, FaceError>,
    i: int,
)
    requires
        0 <= i < candidates.len(),
        candidates[i].face_feature == live,
        score(live, live) == Ok::<Similarity, FaceError>(Similarity { bits: ONE_BITS }),
        forall|j: int|
            0 <= j < i ==> (#[trigger] answer_at(candidates, live, score, j) matches Ok(s) && (
            s.is_match() ==> s.bits == ONE_BITS)),
    ensures
        walk_from(candidates, live, score, 0) matches Walk::Hit(k, similarity) && k <= i
            && similarity.bits == ONE_BITS,
{
    lemma_walk(candidates, live, score, 0);
    assert(matches_at(candidates, live, score, i));
    match walk_from(candidates, live, score, 0) {
        Walk::Hit(k, similarity) => {
            if k > i {
                assert(below_at(candidates, live, score, i));
            }
            if k < i {
                assert(answer_at(candidates, live, score, k) is Ok);
            }
        },
        Walk::Fault(e) => {
            let k = choose|k: int|
                0 <= k < candidates.len() && #[trigger] answer_at(candidates, live, score, k)
                    == Err::<Similarity, FaceError>(e) && all_below(candidates, live, score, 0, k);
            if k > i {
                assert(below_at(candidates, live, score, i));
            }
            if k < i {
                assert(answer_at(candidates, live, score, k) is Ok);
            }
        },
        Walk::Miss => {
            assert(below_at(candidates, live, score, i));
        },
    }
}

/// A cached person whose stored template the live sample equals is
/// recognized: where equal templates score one, and nobody cached before the
/// person fails or reaches the threshold with less than one, the
/// verification pushes a match with a score of one.
pub proof fn lemma_equal_template_matches(
    service: ServiceView,
    company_id: Seq<char>,
    env: Surroundings,
    live: Seq<char>,
    i: int,
)
    requires
        service.wf(),
        resolved(service.configs, company_id, env.config) is Ok,
        env.capture == Ok::<Seq<char>, FaceError>(live),
        0 <= i < of_tenant(service.cache, company_id).len(),
        of_tenant(service.cache, company_id)[i].face_feature == live,
        (env.score)(live, live) == Ok::<Similarity, FaceError>(Similarity { bits: ONE_BITS }),
        forall|j: int|
            0 <= j < i ==> (#[trigger] answer_at(
                of_tenant(service.cache, company_id),
                live,
                env.score,
                j,
            ) matches Ok(s) && (s.is_match() ==> s.bits == ONE_BITS)),
    ensures
        verification(service, company_id, env).pushes == 1,
        verification(service, company_id, env).outcome matches Some(outcome)
            && outcome.matched && outcome.similarity.bits == ONE_BITS,
{
    lemma_walk_finds_equal_template(of_tenant(service.cache, company_id), live, env.score, i);
}

/// The same for a person that only the store holds: where no cached person
/// reaches the threshold and none fails, the store is loaded, and the
/// person is recognized there with a score of one.
pub proof fn lemma_equal_template_matches_from_store(
    service: ServiceView,
    company_id: Seq<char>,
    env: Surroundings,
    live: Seq<char>,
    rows: Seq<PersonInfoView>,
    i: int,
)
    requires
        service.wf(),
        resolved(service.configs, company_id, env.config) is Ok,
        env.capture == Ok::<Seq<char>, FaceError>(live),
        env.rows == Ok::<Seq<PersonInfoView>, StoreFault>(rows),
        walk_from(of_tenant(service.cache, company_id), live, env.score, 0) == Walk::Miss,
        0 <= i < of_tenant(rows, company_id).len(),
        of_tenant(rows, company_id)[i].face_feature == live,
        (env.score)(live, live) == Ok::<Similarity, FaceError>(Similarity { bits: ONE_BITS }),
        forall|j: int|
            0 <= j < i ==> (#[trigger] answer_at(of_tenant(rows, company_id), live, env.score, j)
                matches Ok(s) && (s.is_match() ==> s.bits == ONE_BITS)),
    ensures
        verification(service, company_id, env).pushes == 1,
        verification(service, company_id, env).loads == 1,
        verification(service, company_id, env).outcome matches Some(outcome)
            && outcome.matched && outcome.similarity.bits == ONE_BITS,
{
    lemma_walk_finds_equal_template(of_tenant(rows, company_id), live, env.score, i);
}

/// Setting a configuration that the store wrote, and setting the same once
/// more, leaves what setting it once left; and what is then read for the
/// tenant is that configuration, whatever the store answers.
pub proof fn lemma_put_twice(configs: Map<Seq<char>, CompanyConfigView>, config: CompanyConfigView)
    ensures
        configs_after_save(configs_after_save(configs, config, Ok(())), config, Ok(()))
            == configs_after_save(configs, config, Ok(())),
        configs_after_save(configs, config, Ok(())).contains_key(config.company_id),
        configs_after_save(configs, config, Ok(()))[config.company_id] == config,
        forall|found: Result<Option<CompanyConfigView>, StoreFault>|
            #[trigger] resolved(
                configs_after_save(configs, config, Ok(())),
                config.company_id,
                found,
            ) == Ok::<CompanyConfigView, ServiceError>(config),
{
    assert(configs.insert(config.company_id, config).insert(config.company_id, config)
        =~= configs.insert(config.company_id, config));
}

/// A configuration that the store did not write changes nothing, and
/// setting a tenant's configuration leaves every other tenant's as it was.
pub proof fn lemma_put_is_local(
    configs: Map<Seq<char>, CompanyConfigView>,
    config: CompanyConfigView,
    other: Seq<char>,
)
    requires
        other != config.company_id,
    ensures
        configs_after_save(configs, config, Err(StoreFault)) == configs,
        configs_after_save(configs, config, Ok(())).contains_key(other) == configs.contains_key(
            other,
        ),
        configs.contains_key(other) ==> configs_after_save(configs, config, Ok(()))[other]
            == configs[other],
{
}

/// Setting a configuration keeps every configuration filed under its tenant
/// and with an endpoint address, since one without is never written.
pub proof fn lemma_put_keeps_order(
    configs: Map<Seq<char>, CompanyConfigView>,
    config: CompanyConfigView,
    persisted: Result<(), StoreFault>,
)
    requires
        well_keyed(configs),
        begin_put(config) is Save,
    ensures
        well_keyed(configs_after_save(configs, config, persisted)),
{
}

/// A verification that found its match in the store leaves the person in the
/// cache, and the next verification of the same tenant with the same sample
/// finds the same person in the cache and does not load the store.
pub proof fn lemma_store_match_is_cached(
    service: ServiceView,
    company_id: Seq<char>,
    env: Surroundings,
    next_env: Surroundings,
)
    requires
        service.wf(),
        verification(service, company_id, env).loads == 1,
        verification(service, company_id, env).pushes == 1,
        next_env.capture == env.capture,
        next_env.score == env.score,
    ensures
        ({
            let first = verification(service, company_id, env);
            let next = verification(first.service, company_id, next_env);
            &&& first.outcome matches Some(found)
            &&& found.person matches Some(person)
            &&& first.service.cache == stored(service.cache, person)
            &&& next.loads == 0
            &&& next.pushes == 1
            &&& next.service == first.service
            &&& next.lookups == 0
            &&& next.outcome matches Some(again)
            &&& again.person == Some(person)
            &&& again.similarity == found.similarity
        }),
{
    let live = env.capture->Ok_0;
    let cached = of_tenant(service.cache, company_id);
    lemma_walk(cached, live, env.score, 0);
    let rows = env.rows->Ok_0;
    let listed = of_tenant(rows, company_id);
    lemma_walk(listed, live, env.score, 0);
    let hit = walk_from(listed, live, env.score, 0);
    let at = hit->Hit_0;
    let similarity = hit->Hit_1;
    let person = listed[at];
    lemma_of_tenant_members(rows, company_id);
    assert(person.company_id == company_id);
    let after = stored(service.cache, person);
    lemma_stored(service.cache, person);
    lemma_position(service.cache, person.company_id, person.local_id);
    let place = position(after, person.company_id, person.local_id)->0;
    lemma_position(after, person.company_id, person.local_id);
    assert(after[place] == person);
    assert(after.take(place) =~= service.cache.take(place));
    lemma_of_tenant_at(after, place);
    lemma_of_tenant_take(service.cache, place, company_id);
    let recached = of_tenant(after, company_id);
    let rank = of_tenant(after.take(place), company_id).len() as int;
    lemma_of_tenant_take(after, place, company_id);
    assert(recached[rank] == person);
    assert forall|j: int| 0 <= j < rank implies #[trigger] below_at(
        recached,
        live,
        env.score,
        j,
    ) by {
        assert(recached.take(rank)[j] == cached.take(rank)[j]);
        assert(below_at(cached, live, env.score, j));
    }
    assert(matches_at(recached, live, env.score, rank)) by {
        assert(answer_at(listed, live, env.score, at) == answer_at(
            recached,
            live,
            env.score,
            rank,
        ));
    }
    lemma_walk_hits(recached, live, env.score, 0, rank);
}

/// Of two cached persons whose scores both reach the threshold, the one that
/// the walk meets first is the match, whatever the two scores are: where
/// nobody before the first reaches the threshold or fails, the verification
/// pushes the first, with the score of the first, and nobody after the first
/// is scored at all.
pub proof fn lemma_first_match_wins(
    service: ServiceView,
    company_id: Seq<char>,
    env: Surroundings,
    live: Seq<char>,
    first: int,
    second: int,
)
    requires
        service.wf(),
        resolved(service.configs, company_id, env.config) is Ok,
        env.capture == Ok::<Seq<char>, FaceError>(live),
        0 <= first < second < of_tenant(service.cache, company_id).len(),
        matches_at(of_tenant(service.cache, company_id), live, env.score, first),
        matches_at(of_tenant(service.cache, company_id), live, env.score, second),
        all_below(of_tenant(service.cache, company_id), live, env.score, 0, first),
    ensures
        ({
            let cached = of_tenant(service.cache, company_id);
            let run = verification(service, company_id, env);
            &&& run.outcome == Some(
                outcome_of(
                    resolved(service.configs, company_id, env.config)->Ok_0,
                    cached[first],
                    answer_at(cached, live, env.score, first)->Ok_0,
                    env.stamp,
                ),
            )
            &&& run.pushes == 1
            &&& run.loads == 0
            &&& run.scores == first + 1
            &&& run.service.cache == service.cache
        }),
{
    let cached = of_tenant(service.cache, company_id);
    lemma_walk_hits(cached, live, env.score, 0, first);
    lemma_scored_in(cached, live, env.score, 0, first);
}

/// A verification pushes at most once. It pushes exactly when it found a
/// match, and then it ends with the reading of that one attempt: with
/// `RemoteTimeout` exactly when the deadline passed, never with a second
/// attempt and never with a denial made up for the missing answer.
pub proof fn lemma_one_push_at_most(
    service: ServiceView,
    company_id: Seq<char>,
    env: Surroundings,
)
    ensures
        ({
            let run = verification(service, company_id, env);
            &&& run.pushes <= 1
            &&& run.loads <= 1
            &&& run.captures <= 1
            &&& run.loads == 1 ==> run.captures == 1
            &&& run.pushes == 1 ==> run.captures == 1
            &&& run.pushes == 1 <==> run.outcome is Some
            &&& run.pushes == 1 ==> run.result == decision_of(env.reply)
            &&& run.pushes == 1 ==> (run.result == Err::<ThirdPartyRespView, ServiceError>(
                ServiceError::RemoteTimeout,
            ) <==> env.reply == PushOutcomeView::TimedOut)
            &&& run.pushes == 0 ==> run.service.cache == service.cache
            &&& run.loads == 0 ==> run.service.cache == service.cache
            &&& run.lookups <= 1
            &&& run.lookups == 0 ==> run.service.configs == service.configs
        }),
{
}

/// A verification scores no person before the capture, none of another
/// tenant, and each of the tenant's persons at most once in the cache and
/// once in what the store gave; the store's are scored only after a load.
pub proof fn lemma_scores_are_bounded(
    service: ServiceView,
    company_id: Seq<char>,
    env: Surroundings,
)
    requires
        service.wf(),
    ensures
        ({
            let run = verification(service, company_id, env);
            &&& run.captures == 0 ==> run.scores == 0
            &&& run.loads == 0 ==> run.scores <= of_tenant(service.cache, company_id).len()
            &&& run.scores <= of_tenant(service.cache, company_id).len() + listed_len(
                env,
                company_id,
            )
        }),
{
    if resolved(service.configs, company_id, env.config) is Ok {
        if let Ok(live) = env.capture {
            let cached = of_tenant(service.cache, company_id);
            lemma_scored_in(cached, live, env.score, 0, 0);
            if let Ok(rows) = env.rows {
                lemma_scored_in(of_tenant(rows, company_id), live, env.score, 0, 0);
            }
        }
    }
}

/// A sample that matches nobody, cached or stored, is denied by the library
/// itself, after every one of the tenant's persons was scored, and nothing is
/// pushed: the tenant's endpoint hears of matches only.
pub proof fn lemma_no_match_no_push(
    service: ServiceView,
    company_id: Seq<char>,
    env: Surroundings,
    live: Seq<char>,
    rows: Seq<PersonInfoView>,
)
    requires
        service.wf(),
        resolved(service.configs, company_id, env.config) is Ok,
        env.capture == Ok::<Seq<char>, FaceError>(live),
        env.rows == Ok::<Seq<PersonInfoView>, StoreFault>(rows),
        all_below(
            of_tenant(service.cache, company_id),
            live,
            env.score,
            0,
            of_tenant(service.cache, company_id).len() as int,
        ),
        all_below(
            of_tenant(rows, company_id),
            live,
            env.score,
            0,
            of_tenant(rows, company_id).len() as int,
        ),
    ensures
        ({
            let run = verification(service, company_id, env);
            &&& run.result == Ok::<ThirdPartyRespView, ServiceError>(deny_decision(env.stamp))
            &&& !run.result->Ok_0.allows()
            &&& run.pushes == 0
            &&& run.outcome is None
            &&& run.service.cache == service.cache
            &&& run.scores == of_tenant(service.cache, company_id).len() + of_tenant(
                rows,
                company_id,
            ).len()
        }),
{
    let cached = of_tenant(service.cache, company_id);
    let listed = of_tenant(rows, company_id);
    lemma_walk_misses(cached, live, env.score, 0);
    lemma_walk_misses(listed, live, env.score, 0);
    lemma_scored_in(cached, live, env.score, 0, cached.len() as int);
    lemma_scored_in(listed, live, env.score, 0, listed.len() as int);
}

/// Whoever a verification matches belongs to the tenant that it was begun
/// for, whatever the cache and the store hold for other tenants, and was
/// among the tenant's persons in the cache or in what the store gave.
pub proof fn lemma_match_belongs_to_tenant(
    service: ServiceView,
    company_id: Seq<char>,
    env: Surroundings,
)
    requires
        service.wf(),
    ensures
        verification(service, company_id, env).outcome matches Some(outcome) ==> {
            &&& outcome.company_id == company_id
            &&& outcome.matched
            &&& outcome.similarity.is_match()
            &&& outcome.person matches Some(person)
            &&& person.company_id == company_id
            &&& (service.cache.contains(person) || (env.rows matches Ok(rows) && rows.contains(
                person,
            )))
        },
{
    if resolved(service.configs, company_id, env.config) is Ok {
        if let Ok(live) = env.capture {
            let cached = of_tenant(service.cache, company_id);
            lemma_walk(cached, live, env.score, 0);
            lemma_of_tenant_members(service.cache, company_id);
            if let Ok(rows) = env.rows {
                let listed = of_tenant(rows, company_id);
                lemma_walk(listed, live, env.score, 0);
                lemma_of_tenant_members(rows, company_id);
            }
        }
    }
}

} // verus!
