//! The service: the state that outlives a request, and the steps of
//! verification and enrollment as values that the caller carries from one
//! answer to the next.

use crate::ambient::{now_millis, random_in};
use crate::config_store::{
    config_result_view, configs_after_resolve, found_view, resolved, well_keyed,
    TenantConfigStore,
};
use crate::enrollment::{
    after_extract, after_save, after_tenant, begin_enrollment, cache_after_save, EnrollStamp,
    RegisterStepView,
};
use crate::error::{FaceError, ServiceError, StoreFault};
use crate::ident::{make_local_id, make_request_id, SUFFIX_HIGH, SUFFIX_LIMIT, SUFFIX_LOW};
use crate::model::{
    CompanyConfig, CompanyConfigView, MatchOutcome, PersonInfo, PersonInfoView, RegisterReq,
    RegisterReqView, ThirdPartyResp, VerifyResult, UNRECOGNIZED_STATUS,
};
use crate::notify::{decision_view, interpret, PushOutcome, PUSH_DEADLINE_MS};
use crate::person_cache::{
    distinct_keys, lemma_of_tenant_members, lemma_stored, select_tenant, PersonCache,
};
use crate::protocol::{
    after_capture, after_load, after_push, after_resolve, after_score, begin_step,
    cache_after_score, deny_decision, scan_from, score_needs_stamp, LoadView, PushView, ScanView,
    Stamp, Tier, VerifyStepView,
};
use crate::score::Similarity;
use vstd::prelude::*;
use vstd::string::StringExecFns;

verus! {

/// A verification that waits for the tenant's configuration from the store.
pub struct PendingConfig {
    company_id: String,
}

impl View for PendingConfig {
    type V = Seq<char>;

    closed spec fn view(&self) -> Seq<char> {
        self.company_id@
    }
}

impl PendingConfig {
    /// The tenant whose configuration is to be loaded.
    pub fn company_id(&self) -> (id: &str)
        ensures
            id@ == self@,
    {
        self.company_id.as_str()
    }
}

/// A verification that waits for the live sample.
pub struct PendingCapture {
    config: CompanyConfig,
}

impl View for PendingCapture {
    type V = CompanyConfigView;

    closed spec fn view(&self) -> CompanyConfigView {
        self.config@
    }
}

impl PendingCapture {
    #[verifier::type_invariant]
    spec fn inv(self) -> bool {
        self@.valid()
    }

    /// The tenant whose verification this is.
    pub fn company_id(&self) -> (id: &str)
        ensures
            id@ == self@.company_id,
    {
        self.config.company_id.as_str()
    }
}

/// A verification that waits for the score of one person.
pub struct PendingScore {
    config: CompanyConfig,
    live: String,
    candidates: Vec<PersonInfo>,
    cursor: usize,
    tier: Tier,
}

impl View for PendingScore {
    type V = ScanView;

    closed spec fn view(&self) -> ScanView {
        ScanView {
            config: self.config@,
            live: self.live@,
            candidates: self.candidates.deep_view(),
            cursor: self.cursor as int,
            tier: self.tier,
        }
    }
}

impl PendingScore {
    #[verifier::type_invariant]
    spec fn inv(self) -> bool {
        self@.wf()
    }

    /// The template of the live sample.
    pub fn live_template(&self) -> (template: &str)
        ensures
            template@ == self@.live,
    {
        self.live.as_str()
    }

    /// The template of the person whose score is awaited.
    pub fn stored_template(&self) -> (template: &str)
        ensures
            self@.wf(),
            template@ == self@.candidates[self@.cursor].face_feature,
    {
        proof {
            use_type_invariant(self);
        }
        self.candidates[self.cursor].face_feature.as_str()
    }

    /// Where the person whose score is awaited came from.
    pub fn tier(&self) -> (tier: Tier)
        ensures
            tier == self@.tier,
    {
        self.tier
    }

    fn needs_stamp(&self, result: &Result<Similarity, FaceError>) -> (needed: bool)
        ensures
            needed == score_needs_stamp(self@, *result),
    {
        proof {
            use_type_invariant(self);
        }
        match result {
            Err(_) => false,
            Ok(similarity) => {
                if similarity.meets_threshold() {
                    true
                } else {
                    let count: usize = self.candidates.len();
                    match self.tier {
                        Tier::Store => count - self.cursor <= 1,
                        Tier::Memory => false,
                    }
                }
            },
        }
    }
}

/// A verification that waits for the tenant's persons from the store.
pub struct PendingLoad {
    config: CompanyConfig,
    live: String,
}

impl View for PendingLoad {
    type V = LoadView;

    closed spec fn view(&self) -> LoadView {
        LoadView { config: self.config@, live: self.live@ }
    }
}

/// A verification that waits for the answer of the tenant's endpoint. The
/// value is used up by the answer, so no second attempt can be made of it.
pub struct PendingPush {
    url: String,
    payload: VerifyResult,
    outcome: MatchOutcome,
}

impl View for PendingPush {
    type V = PushView;

    closed spec fn view(&self) -> PushView {
        PushView {
            url: self.url@,
            payload: self.payload@,
            deadline_ms: PUSH_DEADLINE_MS,
            outcome: self.outcome@,
        }
    }
}

/// A step of a verification: a request to the caller, or the end.
pub enum VerifyStep {
    /// Load the tenant's configuration from the store; answer with
    /// `FaceAttendanceService::config_loaded`.
    Resolve(PendingConfig),
    /// Capture a live sample and extract its template; answer with
    /// `FaceAttendanceService::captured`.
    Capture(PendingCapture),
    /// Score the live template against the stored one; answer with
    /// `FaceAttendanceService::scored`.
    Score(PendingScore),
    /// Load the tenant's persons from the store; answer with
    /// `PendingLoad::loaded`.
    Load(PendingLoad),
    /// Push the result to the tenant's endpoint, once; answer with
    /// `PendingPush::replied`.
    Push(PendingPush),
    /// The verification is over.
    Done(Result<ThirdPartyResp, ServiceError>),
}

impl View for VerifyStep {
    type V = VerifyStepView;

    open spec fn view(&self) -> VerifyStepView {
        match *self {
            VerifyStep::Resolve(pending) => VerifyStepView::Resolve(pending@),
            VerifyStep::Capture(pending) => VerifyStepView::Capture(pending@),
            VerifyStep::Score(pending) => VerifyStepView::Score(pending@),
            VerifyStep::Load(pending) => VerifyStepView::Load(pending@),
            VerifyStep::Push(pending) => VerifyStepView::Push(pending@),
            VerifyStep::Done(r) => VerifyStepView::Done(decision_view(r)),
        }
    }
}

/// What the provider answered to a capture or an extraction, by its content.
pub open spec fn template_view(r: Result<String, FaceError>) -> Result<Seq<char>, FaceError> {
    match r {
        Ok(template) => Ok(template@),
        Err(e) => Err(e),
    }
}

/// What the store answered to a load, by its content.
pub open spec fn rows_view(r: Result<Vec<PersonInfo>, StoreFault>) -> Result<
    Seq<PersonInfoView>,
    StoreFault,
> {
    match r {
        Ok(rows) => Ok(rows.deep_view()),
        Err(e) => Err(e),
    }
}

/// The library's own denial, for when nobody matched.
fn deny(now: i64, nonce: u32) -> (decision: ThirdPartyResp)
    ensures
        decision@ == deny_decision(Stamp { now, nonce }),
{
    ThirdPartyResp {
        status: UNRECOGNIZED_STATUS,
        message: String::from_str("未匹配到白名单人员"),
        request_id: make_request_id(now, nonce),
    }
}

fn walk(
    config: CompanyConfig,
    live: String,
    candidates: Vec<PersonInfo>,
    cursor: usize,
    tier: Tier,
    now: i64,
    nonce: u32,
) -> (step: VerifyStep)
    requires
        config@.valid(),
        cursor <= candidates@.len(),
        forall|i: int|
            0 <= i < candidates@.len() ==> (#[trigger] candidates.deep_view()[i]).company_id
                == config@.company_id,
    ensures
        step@ == scan_from(
            config@,
            live@,
            candidates.deep_view(),
            cursor as int,
            tier,
            Stamp { now, nonce },
        ),
        step@.wf(),
{
    if cursor < candidates.len() {
        VerifyStep::Score(PendingScore { config, live, candidates, cursor, tier })
    } else {
        match tier {
            Tier::Memory => VerifyStep::Load(PendingLoad { config, live }),
            Tier::Store => VerifyStep::Done(Ok(deny(now, nonce))),
        }
    }
}

impl PendingLoad {
    #[verifier::type_invariant]
    spec fn inv(self) -> bool {
        self@.config.valid()
    }

    /// The tenant whose persons are to be loaded.
    pub fn company_id(&self) -> (id: &str)
        ensures
            id@ == self@.config.company_id,
    {
        self.config.company_id.as_str()
    }

    fn walk_store(self, candidates: Vec<PersonInfo>, now: i64, nonce: u32) -> (step: VerifyStep)
        requires
            forall|i: int|
                0 <= i < candidates@.len() ==> (#[trigger] candidates.deep_view()[i]).company_id
                    == self@.config.company_id,
        ensures
            step@ == scan_from(
                self@.config,
                self@.live,
                candidates.deep_view(),
                0,
                Tier::Store,
                Stamp { now, nonce },
            ),
            step@.wf(),
    {
        proof {
            use_type_invariant(&self);
        }
        let PendingLoad { config, live } = self;
        walk(config, live, candidates, 0, Tier::Store, now, nonce)
    }

    /// Goes on once the store answered, with `now` and `nonce` for what the
    /// clock and the random generator give.
    pub fn loaded_at(
        self,
        result: Result<Vec<PersonInfo>, StoreFault>,
        now: i64,
        nonce: u32,
    ) -> (step: VerifyStep)
        ensures
            step@ == after_load(self@, rows_view(result), Stamp { now, nonce }),
            step@.wf(),
    {
        match result {
            Err(_) => VerifyStep::Done(Err(ServiceError::StorageError)),
            Ok(rows) => {
                let candidates = select_tenant(&rows, self.config.company_id.as_str());
                proof {
                    lemma_of_tenant_members(rows.deep_view(), self.config.company_id@);
                }
                self.walk_store(candidates, now, nonce)
            },
        }
    }

    /// Goes on once the store answered. Where the store holds nobody of the
    /// tenant, the verification ends with the library's own denial, under a
    /// request id made of the time and a random suffix.
    pub fn loaded(self, result: Result<Vec<PersonInfo>, StoreFault>) -> (step: VerifyStep)
        ensures
            exists|stamp: Stamp|
                SUFFIX_LOW <= stamp.nonce < SUFFIX_HIGH && step@ == #[trigger] after_load(
                    self@,
                    rows_view(result),
                    stamp,
                ),
            step@.wf(),
    {
        match result {
            Err(_) => {
                let ghost stamp = Stamp { now: 0, nonce: SUFFIX_LOW };
                assert(after_load(self@, rows_view(result), stamp) == VerifyStepView::Done(
                    Err(ServiceError::StorageError),
                ));
                VerifyStep::Done(Err(ServiceError::StorageError))
            },
            Ok(rows) => {
                let candidates = select_tenant(&rows, self.config.company_id.as_str());
                proof {
                    lemma_of_tenant_members(rows.deep_view(), self.config.company_id@);
                }
                if candidates.len() == 0 {
                    let now: i64 = now_millis();
                    let nonce: u32 = random_in(SUFFIX_LOW, SUFFIX_HIGH);
                    let ghost stamp = Stamp { now, nonce };
                    let step = self.walk_store(candidates, now, nonce);
                    assert(step@ == after_load(self@, rows_view(result), stamp));
                    step
                } else {
                    let ghost stamp = Stamp { now: 0, nonce: SUFFIX_LOW };
                    let step = self.walk_store(candidates, 0, SUFFIX_LOW);
                    assert(step@ == after_load(self@, rows_view(result), stamp));
                    step
                }
            },
        }
    }
}

impl PendingPush {
    #[verifier::type_invariant]
    spec fn inv(self) -> bool {
        self@.wf()
    }

    /// Where to push.
    pub fn url(&self) -> (url: &str)
        ensures
            url@ == self@.url,
            url@.len() > 0,
    {
        proof {
            use_type_invariant(self);
        }
        self.url.as_str()
    }

    /// What to push.
    pub fn payload(&self) -> (payload: &VerifyResult)
        ensures
            payload@ == self@.payload,
    {
        &self.payload
    }

    /// How long to wait for the answer, in milliseconds.
    pub fn deadline_ms(&self) -> (deadline: u64)
        ensures
            deadline == self@.deadline_ms,
            deadline == PUSH_DEADLINE_MS,
    {
        PUSH_DEADLINE_MS
    }

    /// The match that is being pushed.
    pub fn outcome(&self) -> (outcome: &MatchOutcome)
        ensures
            outcome@ == self@.outcome,
            self@.wf(),
    {
        proof {
            use_type_invariant(self);
        }
        &self.outcome
    }

    /// Ends the verification with the reading of the one attempt.
    pub fn replied(self, outcome: PushOutcome) -> (r: Result<ThirdPartyResp, ServiceError>)
        ensures
            decision_view(r) == after_push(outcome@),
    {
        interpret(outcome)
    }
}

/// An enrollment that waits for the template of its image.
pub struct PendingExtract {
    req: RegisterReq,
}

impl View for PendingExtract {
    type V = RegisterReqView;

    closed spec fn view(&self) -> RegisterReqView {
        self.req@
    }
}

/// An enrollment that waits for the tenant's configuration from the store.
pub struct PendingTenant {
    req: RegisterReq,
}

impl View for PendingTenant {
    type V = RegisterReqView;

    closed spec fn view(&self) -> RegisterReqView {
        self.req@
    }
}

impl PendingTenant {
    /// The tenant whose configuration is to be loaded.
    pub fn company_id(&self) -> (id: &str)
        ensures
            id@ == self@.company_id,
    {
        self.req.company_id.as_str()
    }
}

/// An enrollment that waits for the store to write its person.
pub struct PendingSave {
    person: PersonInfo,
}

impl View for PendingSave {
    type V = PersonInfoView;

    closed spec fn view(&self) -> PersonInfoView {
        self.person@
    }
}

/// A step of an enrollment: a request to the caller, or the end.
pub enum RegisterStep {
    /// Load the tenant's configuration from the store; answer with
    /// `FaceAttendanceService::tenant_loaded`.
    Resolve(PendingTenant),
    /// Extract the template of the image; answer with
    /// `PendingExtract::extracted`.
    Extract(PendingExtract),
    /// Write the person to the store; answer with
    /// `FaceAttendanceService::saved`.
    Save(PendingSave),
    /// The enrollment is over.
    Done(Result<PersonInfo, ServiceError>),
}

/// What an enrollment ends with, by its content.
pub open spec fn person_result_view(r: Result<PersonInfo, ServiceError>) -> Result<
    PersonInfoView,
    ServiceError,
> {
    match r {
        Ok(person) => Ok(person@),
        Err(e) => Err(e),
    }
}

impl View for RegisterStep {
    type V = RegisterStepView;

    open spec fn view(&self) -> RegisterStepView {
        match *self {
            RegisterStep::Resolve(pending) => RegisterStepView::Resolve(pending@),
            RegisterStep::Extract(pending) => RegisterStepView::Extract(pending@),
            RegisterStep::Save(pending) => RegisterStepView::Save(pending@),
            RegisterStep::Done(r) => RegisterStepView::Done(person_result_view(r)),
        }
    }
}

impl PendingExtract {
    /// Where the image to enroll lies.
    pub fn img_path(&self) -> (path: &str)
        ensures
            path@ == self@.img_path,
    {
        self.req.img_path.as_str()
    }

    /// Goes on once the provider answered, with `id_millis` and `nonce` for
    /// what the clock and the random generator give for the local id, and
    /// `create_time` for what the clock gives after that. The local id ends
    /// in `nonce`, written in four digits, so `nonce` is below ten thousand.
    pub fn extracted_at(
        self,
        result: Result<String, FaceError>,
        id_millis: i64,
        nonce: u32,
        create_time: i64,
    ) -> (step: RegisterStep)
        requires
            nonce < SUFFIX_LIMIT,
        ensures
            step@ == after_extract(
                self@,
                template_view(result),
                EnrollStamp { id_millis, nonce, create_time },
            ),
    {
        match result {
            Err(e) => RegisterStep::Done(Err(ServiceError::from_face(e))),
            Ok(feature) => {
                let PendingExtract { req } = self;
                let local_id = make_local_id(req.company_id.as_str(), id_millis, nonce);
                let RegisterReq { company_id, name, img_path, third_party_id } = req;
                RegisterStep::Save(
                    PendingSave {
                        person: PersonInfo {
                            local_id,
                            company_id,
                            name,
                            img_path,
                            third_party_id,
                            face_feature: feature,
                            create_time,
                        },
                    },
                )
            },
        }
    }

    /// Goes on once the provider answered. A template makes the person,
    /// under a local id made of the tenant, the time and a random suffix of
    /// four digits, drawn from one thousand on; nothing keeps two persons
    /// from getting the same.
    pub fn extracted(self, result: Result<String, FaceError>) -> (step: RegisterStep)
        ensures
            exists|stamp: EnrollStamp|
                SUFFIX_LOW <= stamp.nonce < SUFFIX_HIGH && step@ == #[trigger] after_extract(
                    self@,
                    template_view(result),
                    stamp,
                ),
            result is Err ==> step@ == RegisterStepView::Done(
                Err(ServiceError::of_face(result->Err_0)),
            ),
            result is Ok ==> step@ is Save,
    {
        match result {
            Err(e) => {
                let ghost stamp = EnrollStamp { id_millis: 0, nonce: SUFFIX_LOW, create_time: 0 };
                let step = self.extracted_at(Err(e), 0, SUFFIX_LOW, 0);
                assert(step@ == after_extract(self@, template_view(result), stamp));
                step
            },
            Ok(feature) => {
                let id_millis: i64 = now_millis();
                let nonce: u32 = random_in(SUFFIX_LOW, SUFFIX_HIGH);
                let create_time: i64 = now_millis();
                let ghost stamp = EnrollStamp { id_millis, nonce, create_time };
                let step = self.extracted_at(Ok(feature), id_millis, nonce, create_time);
                assert(step@ == after_extract(self@, template_view(result), stamp));
                step
            },
        }
    }
}

impl PendingSave {
    /// The person to write.
    pub fn person(&self) -> (person: &PersonInfo)
        ensures
            person@ == self@,
    {
        &self.person
    }
}

/// The state of the service: every tenant's configuration and the cached
/// persons.
pub struct FaceAttendanceService {
    configs: TenantConfigStore,
    cache: PersonCache,
}

/// What a `FaceAttendanceService` holds.
pub struct ServiceView {
    pub configs: Map<Seq<char>, CompanyConfigView>,
    pub cache: Seq<PersonInfoView>,
}

impl View for FaceAttendanceService {
    type V = ServiceView;

    closed spec fn view(&self) -> ServiceView {
        ServiceView { configs: self.configs@, cache: self.cache@ }
    }
}

impl ServiceView {
    /// Every configuration is filed under its tenant and has an endpoint
    /// address, and no two cached persons have the same key.
    pub open spec fn wf(self) -> bool {
        well_keyed(self.configs) && distinct_keys(self.cache)
    }
}

/// A step of the setting of a configuration.
pub enum ConfigStepView {
    /// Write the configuration to the persistent store.
    Save(CompanyConfigView),
    /// The setting is over.
    Done(Result<(), ServiceError>),
}

/// The first step of the setting of a configuration: the writing of it, or,
/// for one without an endpoint address, the end with `NotConfigured`.
pub open spec fn begin_put(config: CompanyConfigView) -> ConfigStepView {
    if config.valid() {
        ConfigStepView::Save(config)
    } else {
        ConfigStepView::Done(Err(ServiceError::NotConfigured))
    }
}

/// The end of the setting of a configuration once the store answered.
pub open spec fn after_config_save(persisted: Result<(), StoreFault>) -> Result<(), ServiceError> {
    match persisted {
        Ok(_) => Ok(()),
        Err(_) => Err(ServiceError::StorageError),
    }
}

/// The configurations in memory once the store answered: the same where the
/// store did not write the configuration, else with the one entry of its
/// tenant replaced.
pub open spec fn configs_after_save(
    configs: Map<Seq<char>, CompanyConfigView>,
    config: CompanyConfigView,
    persisted: Result<(), StoreFault>,
) -> Map<Seq<char>, CompanyConfigView> {
    match persisted {
        Ok(_) => configs.insert(config.company_id, config),
        Err(_) => configs,
    }
}

/// The setting of a configuration that waits for the store to write it.
pub struct PendingPut {
    config: CompanyConfig,
}

impl View for PendingPut {
    type V = CompanyConfigView;

    closed spec fn view(&self) -> CompanyConfigView {
        self.config@
    }
}

impl PendingPut {
    #[verifier::type_invariant]
    spec fn inv(self) -> bool {
        self@.valid()
    }

    /// The configuration to write.
    pub fn config(&self) -> (config: &CompanyConfig)
        ensures
            config@ == self@,
            self@.valid(),
    {
        proof {
            use_type_invariant(self);
        }
        &self.config
    }
}

/// A step of the setting of a configuration: a request to the caller, or the
/// end.
pub enum ConfigStep {
    /// Write the configuration to the store; answer with
    /// `FaceAttendanceService::config_saved`.
    Save(PendingPut),
    /// The setting is over.
    Done(Result<(), ServiceError>),
}

impl View for ConfigStep {
    type V = ConfigStepView;

    open spec fn view(&self) -> ConfigStepView {
        match *self {
            ConfigStep::Save(pending) => ConfigStepView::Save(pending@),
            ConfigStep::Done(r) => ConfigStepView::Done(r),
        }
    }
}

impl FaceAttendanceService {
    /// A service without tenants and without persons.
    pub fn new() -> (service: FaceAttendanceService)
        ensures
            service@.configs == Map::<Seq<char>, CompanyConfigView>::empty(),
            service@.cache == Seq::<PersonInfoView>::empty(),
            service@.wf(),
    {
        FaceAttendanceService { configs: TenantConfigStore::new(), cache: PersonCache::new() }
    }

    /// The configuration of a tenant as memory holds it, or `NotConfigured`
    /// where memory holds none: the cue to ask the store and to hand its
    /// answer to `read_company_config`, which reads through.
    pub fn get_company_config(&self, company_id: &str) -> (r: Result<CompanyConfig, ServiceError>)
        ensures
            match r {
                Ok(c) => self@.configs.contains_key(company_id@) && c@
                    == self@.configs[company_id@],
                Err(e) => e == ServiceError::NotConfigured && !self@.configs.contains_key(
                    company_id@,
                ),
            },
            self@.wf(),
    {
        proof {
            use_type_invariant(&self.cache);
        }
        self.configs.get(company_id)
    }

    /// The configuration of a tenant, read through to the persistent store:
    /// `found` is what the store gave for the tenant. A tenant is
    /// `NotConfigured` exactly where neither memory nor the store holds a
    /// configuration with an endpoint address for it; a store that failed, or
    /// gave another tenant's configuration, is `StorageError`, unless memory
    /// holds the tenant's. What memory holds comes first, and what the store
    /// gave is kept in memory where memory held nothing.
    pub fn read_company_config(
        &mut self,
        company_id: &str,
        found: Result<Option<CompanyConfig>, StoreFault>,
    ) -> (r: Result<CompanyConfig, ServiceError>)
        ensures
            config_result_view(r) == resolved(old(self)@.configs, company_id@, found_view(found)),
            final(self)@.configs == configs_after_resolve(
                old(self)@.configs,
                company_id@,
                found_view(found),
            ),
            final(self)@.cache == old(self)@.cache,
            r matches Ok(c) ==> final(self)@.configs.contains_key(company_id@)
                && final(self)@.configs[company_id@] == c@,
            final(self)@.wf(),
    {
        proof {
            use_type_invariant(&self.cache);
        }
        self.configs.resolve(company_id, found)
    }

    /// Begins the setting of a tenant's configuration. The configuration is
    /// written to the persistent store before memory sees it.
    pub fn add_company_config(&self, config: CompanyConfig) -> (step: ConfigStep)
        ensures
            step@ == begin_put(config@),
            self@.wf(),
    {
        proof {
            use_type_invariant(&self.configs);
            use_type_invariant(&self.cache);
            self.configs.lemma_well_keyed();
        }
        if config.third_party_api.as_str().is_empty() {
            ConfigStep::Done(Err(ServiceError::NotConfigured))
        } else {
            ConfigStep::Save(PendingPut { config })
        }
    }

    /// Ends the setting of a configuration once the store answered. What the
    /// store did not write is not set and fails with `StorageError`; what it
    /// wrote takes the place of the tenant's entry, whole, so that the next
    /// reading sees it.
    pub fn config_saved(&mut self, pending: PendingPut, persisted: Result<(), StoreFault>) -> (r:
        Result<(), ServiceError>)
        ensures
            r == after_config_save(persisted),
            final(self)@.configs == configs_after_save(old(self)@.configs, pending@, persisted),
            final(self)@.cache == old(self)@.cache,
            final(self)@.wf(),
    {
        proof {
            use_type_invariant(&pending);
            use_type_invariant(&self.configs);
            use_type_invariant(&self.cache);
            self.configs.lemma_well_keyed();
        }
        match persisted {
            Err(_) => Err(ServiceError::StorageError),
            Ok(_) => {
                let PendingPut { config } = pending;
                let _ = self.configs.put(config);
                Ok(())
            },
        }
    }

    /// The number of cached persons.
    pub fn cached_persons(&self) -> (n: usize)
        ensures
            n == self@.cache.len(),
            self@.wf(),
    {
        proof {
            use_type_invariant(&self.configs);
            self.configs.lemma_well_keyed();
        }
        self.cache.len()
    }

    /// Begins a verification for `company_id`. The first step is the capture
    /// for a tenant whose configuration is in memory, else the reading of
    /// the configuration from the store.
    pub fn verify_and_notify(&self, company_id: &str) -> (step: VerifyStep)
        ensures
            step@ == begin_step(self@.configs, company_id@),
            step@.wf(),
            self@.wf(),
    {
        proof {
            use_type_invariant(&self.cache);
        }
        match self.configs.get(company_id) {
            Err(_) => VerifyStep::Resolve(PendingConfig { company_id: company_id.to_owned() }),
            Ok(config) => VerifyStep::Capture(PendingCapture { config }),
        }
    }

    /// Goes on once the store answered for the tenant's configuration. What
    /// the store gave is kept in memory, unless memory holds a configuration
    /// of the tenant by now, which then comes first.
    pub fn config_loaded(
        &mut self,
        pending: PendingConfig,
        found: Result<Option<CompanyConfig>, StoreFault>,
    ) -> (step: VerifyStep)
        ensures
            step@ == after_resolve(old(self)@.configs, pending@, found_view(found)),
            step@.wf(),
            final(self)@.configs == configs_after_resolve(
                old(self)@.configs,
                pending@,
                found_view(found),
            ),
            final(self)@.cache == old(self)@.cache,
            final(self)@.wf(),
    {
        proof {
            use_type_invariant(&self.cache);
        }
        let PendingConfig { company_id } = pending;
        match self.configs.resolve(company_id.as_str(), found) {
            Err(e) => VerifyStep::Done(Err(e)),
            Ok(config) => VerifyStep::Capture(PendingCapture { config }),
        }
    }

    /// Goes on once the provider answered the capture.
    pub fn captured(&self, pending: PendingCapture, result: Result<String, FaceError>) -> (step:
        VerifyStep)
        ensures
            step@ == after_capture(self@.cache, pending@, template_view(result)),
            step@.wf(),
            self@.wf(),
    {
        proof {
            use_type_invariant(&pending);
            use_type_invariant(&self.configs);
            use_type_invariant(&self.cache);
            self.configs.lemma_well_keyed();
        }
        match result {
            Err(e) => VerifyStep::Done(Err(ServiceError::from_face(e))),
            Ok(live) => {
                let candidates = self.cache.entries_for(pending.config.company_id.as_str());
                proof {
                    lemma_of_tenant_members(self.cache@, pending.config.company_id@);
                }
                let PendingCapture { config } = pending;
                walk(config, live, candidates, 0, Tier::Memory, 0, SUFFIX_LOW)
            },
        }
    }

    /// Goes on once the provider answered with a score, with `now` and
    /// `nonce` for what the clock and the random generator give. A person of
    /// the store that matched is cached before the push is asked for.
    pub fn scored_at(
        &mut self,
        pending: PendingScore,
        result: Result<Similarity, FaceError>,
        now: i64,
        nonce: u32,
    ) -> (step: VerifyStep)
        ensures
            step@ == after_score(pending@, result, Stamp { now, nonce }),
            step@.wf(),
            final(self)@.cache == cache_after_score(old(self)@.cache, pending@, result),
            final(self)@.configs == old(self)@.configs,
            final(self)@.wf(),
    {
        proof {
            use_type_invariant(&pending);
            use_type_invariant(&self.configs);
            use_type_invariant(&self.cache);
            self.configs.lemma_well_keyed();
            lemma_stored(self.cache@, pending@.candidates[pending@.cursor]);
        }
        match result {
            Err(e) => VerifyStep::Done(Err(ServiceError::from_face(e))),
            Ok(similarity) => {
                let PendingScore { config, live, candidates, cursor, tier } = pending;
                if similarity.meets_threshold() {
                    let person = candidates[cursor].clone();
                    let request_id = make_request_id(now, nonce);
                    let payload = VerifyResult {
                        company_id: config.company_id.clone(),
                        local_id: person.local_id.clone(),
                        third_party_id: person.third_party_id.clone(),
                        name: person.name.clone(),
                        success: true,
                        timestamp: now,
                        request_id: request_id.clone(),
                    };
                    match tier {
                        Tier::Store => {
                            self.cache.insert(person.clone());
                        },
                        Tier::Memory => {},
                    }
                    let outcome = MatchOutcome {
                        company_id: config.company_id,
                        matched: true,
                        person: Some(person),
                        similarity,
                        request_id,
                        timestamp: now,
                    };
                    VerifyStep::Push(PendingPush { url: config.third_party_api, payload, outcome })
                } else {
                    let count: usize = candidates.len();
                    assert(cursor < count);
                    walk(config, live, candidates, cursor + 1, tier, now, nonce)
                }
            },
        }
    }

    /// Goes on once the provider answered with a score. The clock and the
    /// random generator are asked only where the score brings the result: a
    /// match is stamped with the time at which it was made, and bears, as
    /// the library's own denial does, a request id made of that time and a
    /// random suffix.
    pub fn scored(&mut self, pending: PendingScore, result: Result<Similarity, FaceError>) -> (step:
        VerifyStep)
        ensures
            exists|stamp: Stamp|
                SUFFIX_LOW <= stamp.nonce < SUFFIX_HIGH && step@ == #[trigger] after_score(
                    pending@,
                    result,
                    stamp,
                ),
            step@.wf(),
            final(self)@.cache == cache_after_score(old(self)@.cache, pending@, result),
            final(self)@.configs == old(self)@.configs,
            final(self)@.wf(),
    {
        if pending.needs_stamp(&result) {
            let now: i64 = now_millis();
            let nonce: u32 = random_in(SUFFIX_LOW, SUFFIX_HIGH);
            let ghost stamp = Stamp { now, nonce };
            let step = self.scored_at(pending, result, now, nonce);
            assert(step@ == after_score(pending@, result, stamp));
            step
        } else {
            let ghost stamp = Stamp { now: 0, nonce: SUFFIX_LOW };
            let step = self.scored_at(pending, result, 0, SUFFIX_LOW);
            assert(step@ == after_score(pending@, result, stamp));
            step
        }
    }

    /// Begins the enrollment of `req`. The first step is the extraction for
    /// a tenant whose configuration is in memory, else the reading of the
    /// configuration from the store.
    pub fn register_from_img(&self, req: RegisterReq) -> (step: RegisterStep)
        ensures
            step@ == begin_enrollment(self@.configs, req@),
            self@.wf(),
    {
        proof {
            use_type_invariant(&self.configs);
            use_type_invariant(&self.cache);
            self.configs.lemma_well_keyed();
        }
        if self.configs.contains(req.company_id.as_str()) {
            RegisterStep::Extract(PendingExtract { req })
        } else {
            RegisterStep::Resolve(PendingTenant { req })
        }
    }

    /// Goes on with an enrollment once the store answered for the tenant's
    /// configuration, which is kept in memory as in a verification.
    pub fn tenant_loaded(
        &mut self,
        pending: PendingTenant,
        found: Result<Option<CompanyConfig>, StoreFault>,
    ) -> (step: RegisterStep)
        ensures
            step@ == after_tenant(old(self)@.configs, pending@, found_view(found)),
            final(self)@.configs == configs_after_resolve(
                old(self)@.configs,
                pending@.company_id,
                found_view(found),
            ),
            final(self)@.cache == old(self)@.cache,
            final(self)@.wf(),
    {
        proof {
            use_type_invariant(&self.cache);
        }
        let PendingTenant { req } = pending;
        match self.configs.resolve(req.company_id.as_str(), found) {
            Err(e) => RegisterStep::Done(Err(e)),
            Ok(_) => RegisterStep::Extract(PendingExtract { req }),
        }
    }

    /// Ends an enrollment once the store answered to the writing of the
    /// person. A person that was written is cached and returned whole, the
    /// template included; one that was not is not cached.
    pub fn saved(&mut self, pending: PendingSave, result: Result<(), StoreFault>) -> (r: Result<
        PersonInfo,
        ServiceError,
    >)
        ensures
            person_result_view(r) == after_save(pending@, result),
            final(self)@.cache == cache_after_save(old(self)@.cache, pending@, result),
            final(self)@.configs == old(self)@.configs,
            final(self)@.wf(),
    {
        proof {
            use_type_invariant(&self.configs);
            use_type_invariant(&self.cache);
            self.configs.lemma_well_keyed();
            lemma_stored(self.cache@, pending@);
        }
        match result {
            Err(_) => Err(ServiceError::StorageError),
            Ok(_) => {
                let PendingSave { person } = pending;
                self.cache.insert(person.clone());
                Ok(person)
            },
        }
    }
}

} // verus!
