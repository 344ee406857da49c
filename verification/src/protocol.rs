//! One verification as a sequence of steps, in mathematical terms.
//!
//! A step is either a request to the caller (load a tenant's configuration,
//! capture a sample, score two templates, load a tenant's persons, push a
//! result) or the end. Each function here says which step follows a step
//! once the request was answered.

use crate::config_store::{resolved, well_keyed};
use crate::error::{FaceError, ServiceError, StoreFault};
use crate::ident::request_id_text;
use crate::model::{
    CompanyConfigView, MatchOutcomeView, PersonInfoView, ThirdPartyRespView, VerifyResultView,
    UNRECOGNIZED_STATUS,
};
use crate::notify::{decision_of, PushOutcomeView, PUSH_DEADLINE_MS};
use crate::person_cache::{of_tenant, stored};
use crate::score::Similarity;
use vstd::prelude::*;

verus! {

/// Where the persons that are being scored came from.
#[derive(Clone, Copy, Debug, PartialEq, Eq, Structural)]
pub enum Tier {
    /// The in-memory cache.
    Memory,
    /// The persistent store.
    Store,
}

/// What the clock and the random generator gave when a verification came to
/// its result.
pub struct Stamp {
    /// Milliseconds since the epoch.
    pub now: i64,
    /// The random suffix.
    pub nonce: u32,
}

/// A verification that waits for the score of one person.
pub struct ScanView {
    /// The tenant's configuration, as it was when the verification began.
    pub config: CompanyConfigView,
    /// The template of the live sample.
    pub live: Seq<char>,
    /// The persons of the tier, in the order in which they are scored.
    pub candidates: Seq<PersonInfoView>,
    /// The place of the person whose score is awaited.
    pub cursor: int,
    pub tier: Tier,
}

/// A verification that waits for the tenant's persons from the store.
pub struct LoadView {
    pub config: CompanyConfigView,
    pub live: Seq<char>,
}

/// A verification that waits for the answer of the tenant's endpoint.
pub struct PushView {
    /// Where to push.
    pub url: Seq<char>,
    /// What to push.
    pub payload: VerifyResultView,
    /// How long to wait for the answer, in milliseconds.
    pub deadline_ms: u64,
    /// The match that is being pushed.
    pub outcome: MatchOutcomeView,
}

/// A step of a verification.
pub enum VerifyStepView {
    /// Load the configuration of this tenant from the store.
    Resolve(Seq<char>),
    /// Capture a live sample and extract its template.
    Capture(CompanyConfigView),
    /// Score the live template against the template of the person at the
    /// cursor.
    Score(ScanView),
    /// Load the tenant's persons from the store.
    Load(LoadView),
    /// Push the result to the tenant's endpoint, once.
    Push(PushView),
    /// The verification is over.
    Done(Result<ThirdPartyRespView, ServiceError>),
}

/// The text of the decision that the library makes when nobody matched.
pub open spec fn unrecognized_message() -> Seq<char> {
    "未匹配到白名单人员"@
}

/// The decision that the library makes by itself when nobody matched: not an
/// allowance, and no word of the tenant's endpoint.
pub open spec fn deny_decision(stamp: Stamp) -> ThirdPartyRespView {
    ThirdPartyRespView {
        status: UNRECOGNIZED_STATUS,
        message: unrecognized_message(),
        request_id: request_id_text(stamp.now, stamp.nonce),
    }
}

/// The match of `person` with score `similarity`, made at `stamp`.
pub open spec fn outcome_of(
    config: CompanyConfigView,
    person: PersonInfoView,
    similarity: Similarity,
    stamp: Stamp,
) -> MatchOutcomeView {
    MatchOutcomeView {
        company_id: config.company_id,
        matched: true,
        person: Some(person),
        similarity,
        request_id: request_id_text(stamp.now, stamp.nonce),
        timestamp: stamp.now,
    }
}

/// What is pushed for the match of `person`.
pub open spec fn payload_of(config: CompanyConfigView, person: PersonInfoView, stamp: Stamp)
    -> VerifyResultView {
    VerifyResultView {
        company_id: config.company_id,
        local_id: person.local_id,
        third_party_id: person.third_party_id,
        name: person.name,
        success: true,
        timestamp: stamp.now,
        request_id: request_id_text(stamp.now, stamp.nonce),
    }
}

/// The push of the match of `person`, to the endpoint of the tenant's
/// configuration and under the one deadline there is.
pub open spec fn push_of(
    config: CompanyConfigView,
    person: PersonInfoView,
    similarity: Similarity,
    stamp: Stamp,
) -> PushView {
    PushView {
        url: config.third_party_api,
        payload: payload_of(config, person, stamp),
        deadline_ms: PUSH_DEADLINE_MS,
        outcome: outcome_of(config, person, similarity, stamp),
    }
}

/// The first step of a verification for `company_id`: the capture for a
/// tenant whose configuration is in memory, else the reading of the
/// configuration from the store.
pub open spec fn begin_step(configs: Map<Seq<char>, CompanyConfigView>, company_id: Seq<char>)
    -> VerifyStepView {
    if configs.contains_key(company_id) {
        VerifyStepView::Capture(configs[company_id])
    } else {
        VerifyStepView::Resolve(company_id)
    }
}

/// The step after the store answered for the tenant's configuration. A
/// tenant without configuration ends the verification with `NotConfigured`
/// before anything else is asked for.
pub open spec fn after_resolve(
    configs: Map<Seq<char>, CompanyConfigView>,
    company_id: Seq<char>,
    found: Result<Option<CompanyConfigView>, StoreFault>,
) -> VerifyStepView {
    match resolved(configs, company_id, found) {
        Ok(config) => VerifyStepView::Capture(config),
        Err(e) => VerifyStepView::Done(Err(e)),
    }
}

/// The step that scores the person at `cursor`, or, past the last person,
/// the step that follows a tier without a match: after the cache the store
/// is loaded, after the store the verification ends with the library's own
/// denial, made at `stamp`.
pub open spec fn scan_from(
    config: CompanyConfigView,
    live: Seq<char>,
    candidates: Seq<PersonInfoView>,
    cursor: int,
    tier: Tier,
    stamp: Stamp,
) -> VerifyStepView {
    if cursor < candidates.len() {
        VerifyStepView::Score(ScanView { config, live, candidates, cursor, tier })
    } else {
        match tier {
            Tier::Memory => VerifyStepView::Load(LoadView { config, live }),
            Tier::Store => VerifyStepView::Done(Ok(deny_decision(stamp))),
        }
    }
}

/// The step after the capture was answered. A failure of the provider ends
/// the verification; a template starts the walk through the tenant's cached
/// persons, or leads to the store where the tenant has none.
pub open spec fn after_capture(
    cache: Seq<PersonInfoView>,
    config: CompanyConfigView,
    result: Result<Seq<char>, FaceError>,
) -> VerifyStepView {
    match result {
        Err(e) => VerifyStepView::Done(Err(ServiceError::of_face(e))),
        Ok(live) => {
            let candidates = of_tenant(cache, config.company_id);
            if 0 < candidates.len() {
                VerifyStepView::Score(
                    ScanView { config, live, candidates, cursor: 0, tier: Tier::Memory },
                )
            } else {
                VerifyStepView::Load(LoadView { config, live })
            }
        },
    }
}

/// The step after a score came back. A failure of the provider ends the
/// verification. A score that reaches the threshold makes the person at the
/// cursor the match, whatever the persons after it would score. Any other
/// score moves the cursor on.
pub open spec fn after_score(scan: ScanView, result: Result<Similarity, FaceError>, stamp: Stamp)
    -> VerifyStepView {
    match result {
        Err(e) => VerifyStepView::Done(Err(ServiceError::of_face(e))),
        Ok(similarity) => if similarity.is_match() {
            VerifyStepView::Push(
                push_of(scan.config, scan.candidates[scan.cursor], similarity, stamp),
            )
        } else {
            scan_from(scan.config, scan.live, scan.candidates, scan.cursor + 1, scan.tier, stamp)
        },
    }
}

/// Whether the step after a score bears a stamp: it does where the score
/// makes a match, and where it is the last of the store's without one.
pub open spec fn score_needs_stamp(scan: ScanView, result: Result<Similarity, FaceError>) -> bool {
    match result {
        Err(_) => false,
        Ok(similarity) => similarity.is_match() || (scan.tier == Tier::Store && scan.cursor + 1
            >= scan.candidates.len()),
    }
}

/// The cache after a score came back: a match that was found in the
/// persistent store is stored in the cache, and nothing else changes it.
pub open spec fn cache_after_score(
    cache: Seq<PersonInfoView>,
    scan: ScanView,
    result: Result<Similarity, FaceError>,
) -> Seq<PersonInfoView> {
    match result {
        Ok(similarity) => if similarity.is_match() && scan.tier == Tier::Store {
            stored(cache, scan.candidates[scan.cursor])
        } else {
            cache
        },
        Err(_) => cache,
    }
}

/// The step after the store answered. A failure ends the verification with
/// `StorageError`; the persons of the tenant among those that came are
/// walked in the order in which they came.
pub open spec fn after_load(
    load: LoadView,
    result: Result<Seq<PersonInfoView>, StoreFault>,
    stamp: Stamp,
) -> VerifyStepView {
    match result {
        Err(_) => VerifyStepView::Done(Err(ServiceError::StorageError)),
        Ok(rows) => scan_from(
            load.config,
            load.live,
            of_tenant(rows, load.config.company_id),
            0,
            Tier::Store,
            stamp,
        ),
    }
}

/// The end of a verification whose push was attempted: the reading of the
/// attempt, with nothing added and nothing tried again.
pub open spec fn after_push(outcome: PushOutcomeView) -> Result<ThirdPartyRespView, ServiceError> {
    decision_of(outcome)
}

impl ScanView {
    /// The cursor is at a person, and every person belongs to the tenant of
    /// the verification.
    pub open spec fn wf(self) -> bool {
        &&& self.config.valid()
        &&& 0 <= self.cursor < self.candidates.len()
        &&& forall|i: int|
            0 <= i < self.candidates.len() ==> (#[trigger] self.candidates[i]).company_id
                == self.config.company_id
    }
}

impl PushView {
    /// The push goes to an endpoint, under the one deadline, for a person
    /// of the tenant that the verification is for, and says of that person
    /// what the match says.
    pub open spec fn wf(self) -> bool {
        &&& self.url.len() > 0
        &&& self.deadline_ms == PUSH_DEADLINE_MS
        &&& self.outcome.matched
        &&& self.outcome.similarity.is_match()
        &&& self.outcome.person matches Some(person)
        &&& person.company_id == self.outcome.company_id
        &&& self.payload.success
        &&& self.payload.company_id == self.outcome.company_id
        &&& self.payload.local_id == person.local_id
        &&& self.payload.third_party_id == person.third_party_id
        &&& self.payload.name == person.name
        &&& self.payload.request_id == self.outcome.request_id
        &&& self.payload.timestamp == self.outcome.timestamp
    }
}

impl VerifyStepView {
    /// What holds of every step that a verification reaches.
    pub open spec fn wf(self) -> bool {
        match self {
            VerifyStepView::Resolve(_) => true,
            VerifyStepView::Capture(config) => config.valid(),
            VerifyStepView::Score(scan) => scan.wf(),
            VerifyStepView::Load(load) => load.config.valid(),
            VerifyStepView::Push(push) => push.wf(),
            VerifyStepView::Done(_) => true,
        }
    }

    /// The tenant that the step works for, where it still works.
    pub open spec fn tenant(self) -> Option<Seq<char>> {
        match self {
            VerifyStepView::Resolve(company_id) => Some(company_id),
            VerifyStepView::Capture(config) => Some(config.company_id),
            VerifyStepView::Score(scan) => Some(scan.config.company_id),
            VerifyStepView::Load(load) => Some(load.config.company_id),
            VerifyStepView::Push(push) => Some(push.outcome.company_id),
            VerifyStepView::Done(_) => None,
        }
    }
}

/// Every step that follows a step in order is in order, and works for the
/// same tenant as long as it works.
pub proof fn lemma_steps_stay_wf(
    configs: Map<Seq<char>, CompanyConfigView>,
    cache: Seq<PersonInfoView>,
    company_id: Seq<char>,
    config: CompanyConfigView,
    scan: ScanView,
    load: LoadView,
    found: Result<Option<CompanyConfigView>, StoreFault>,
    captured: Result<Seq<char>, FaceError>,
    scored: Result<Similarity, FaceError>,
    loaded: Result<Seq<PersonInfoView>, StoreFault>,
    stamp: Stamp,
)
    ensures
        well_keyed(configs) ==> begin_step(configs, company_id).wf() && begin_step(
            configs,
            company_id,
        ).tenant() == Some(company_id),
        well_keyed(configs) ==> after_resolve(configs, company_id, found).wf() && (after_resolve(
            configs,
            company_id,
            found,
        ) is Done || after_resolve(configs, company_id, found).tenant() == Some(company_id)),
        config.valid() ==> after_capture(cache, config, captured).wf() && (after_capture(
            cache,
            config,
            captured,
        ) is Done || after_capture(cache, config, captured).tenant() == Some(config.company_id)),
        scan.wf() ==> after_score(scan, scored, stamp).wf() && (after_score(scan, scored, stamp)
            is Done || after_score(scan, scored, stamp).tenant() == Some(scan.config.company_id)),
        load.config.valid() ==> after_load(load, loaded, stamp).wf() && (after_load(
            load,
            loaded,
            stamp,
        ) is Done || after_load(load, loaded, stamp).tenant() == Some(load.config.company_id)),
{
    if config.valid() {
        if let Ok(live) = captured {
            crate::person_cache::lemma_of_tenant_members(cache, config.company_id);
        }
    }
    if load.config.valid() {
        if let Ok(rows) = loaded {
            crate::person_cache::lemma_of_tenant_members(rows, load.config.company_id);
        }
    }
}

} // verus!
