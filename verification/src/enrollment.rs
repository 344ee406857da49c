//! One enrollment as a sequence of steps, in mathematical terms.

use crate::config_store::{configs_after_resolve, resolved};
use crate::error::{FaceError, ServiceError, StoreFault};
use crate::ident::local_id_text;
use crate::model::{CompanyConfigView, PersonInfoView, RegisterReqView};
use crate::person_cache::stored;
use vstd::prelude::*;

verus! {

/// What the clock and the random generator gave when an enrollment made its
/// person.
pub struct EnrollStamp {
    /// The time that the local id is made of, in milliseconds since the
    /// epoch.
    pub id_millis: i64,
    /// The random suffix of the local id.
    pub nonce: u32,
    /// The time of enrollment, in milliseconds since the epoch.
    pub create_time: i64,
}

/// A step of an enrollment.
pub enum RegisterStepView {
    /// Load the tenant's configuration from the store.
    Resolve(RegisterReqView),
    /// Extract the template of the image at the request's path.
    Extract(RegisterReqView),
    /// Write the person to the persistent store.
    Save(PersonInfoView),
    /// The enrollment is over.
    Done(Result<PersonInfoView, ServiceError>),
}

/// The person that an enrollment makes of a request and a template. Its
/// local id is the tenant, the time and the suffix; nothing keeps two
/// persons from getting the same.
pub open spec fn person_of(req: RegisterReqView, feature: Seq<char>, stamp: EnrollStamp)
    -> PersonInfoView {
    PersonInfoView {
        local_id: local_id_text(req.company_id, stamp.id_millis, stamp.nonce),
        company_id: req.company_id,
        name: req.name,
        img_path: req.img_path,
        third_party_id: req.third_party_id,
        face_feature: feature,
        create_time: stamp.create_time,
    }
}

/// The first step of the enrollment of `req`: the extraction for a tenant
/// whose configuration is in memory, else the reading of the configuration
/// from the store.
pub open spec fn begin_enrollment(configs: Map<Seq<char>, CompanyConfigView>, req: RegisterReqView)
    -> RegisterStepView {
    if configs.contains_key(req.company_id) {
        RegisterStepView::Extract(req)
    } else {
        RegisterStepView::Resolve(req)
    }
}

/// The step after the store answered for the tenant's configuration. A
/// tenant without configuration ends the enrollment with `NotConfigured`
/// before the provider is asked for anything.
pub open spec fn after_tenant(
    configs: Map<Seq<char>, CompanyConfigView>,
    req: RegisterReqView,
    found: Result<Option<CompanyConfigView>, StoreFault>,
) -> RegisterStepView {
    match resolved(configs, req.company_id, found) {
        Ok(_) => RegisterStepView::Extract(req),
        Err(e) => RegisterStepView::Done(Err(e)),
    }
}

/// The step after the extraction was answered. A failure of the provider is
/// the failure of the enrollment, unchanged in kind; a template makes the
/// person, at `stamp`.
pub open spec fn after_extract(
    req: RegisterReqView,
    result: Result<Seq<char>, FaceError>,
    stamp: EnrollStamp,
) -> RegisterStepView {
    match result {
        Err(e) => RegisterStepView::Done(Err(ServiceError::of_face(e))),
        Ok(feature) => RegisterStepView::Save(person_of(req, feature, stamp)),
    }
}

/// The end of an enrollment once the store answered: the whole person, the
/// template included, or `StorageError`.
pub open spec fn after_save(person: PersonInfoView, result: Result<(), StoreFault>) -> Result<
    PersonInfoView,
    ServiceError,
> {
    match result {
        Ok(_) => Ok(person),
        Err(_) => Err(ServiceError::StorageError),
    }
}

/// The cache once the store answered: a person that was written is stored in
/// the cache too, and a person that was not is not.
pub open spec fn cache_after_save(
    cache: Seq<PersonInfoView>,
    person: PersonInfoView,
    result: Result<(), StoreFault>,
) -> Seq<PersonInfoView> {
    match result {
        Ok(_) => stored(cache, person),
        Err(_) => cache,
    }
}

/// How the surroundings answer during one enrollment.
pub struct Answers {
    /// What the store gives for the tenant's configuration.
    pub config: Result<Option<CompanyConfigView>, StoreFault>,
    /// What the extraction of the image's template gives.
    pub extracted: Result<Seq<char>, FaceError>,
    /// What the clock and the random generator give once the template is
    /// there.
    pub stamp: EnrollStamp,
    /// What becomes of the writing of the person.
    pub saved: Result<(), StoreFault>,
}

/// What one enrollment came to.
pub struct Enrolled {
    /// What the enrollment ends with.
    pub result: Result<PersonInfoView, ServiceError>,
    /// The configurations that it leaves in memory.
    pub configs: Map<Seq<char>, CompanyConfigView>,
    /// The cache that it leaves.
    pub cache: Seq<PersonInfoView>,
    /// Whether the provider was asked for a template.
    pub extracted: bool,
    /// Whether the store was asked to write a person.
    pub saved: bool,
}

/// One enrollment of `req` in surroundings that answer as `env` says.
pub open spec fn enrollment(
    configs: Map<Seq<char>, CompanyConfigView>,
    cache: Seq<PersonInfoView>,
    req: RegisterReqView,
    env: Answers,
) -> Enrolled {
    let kept = configs_after_resolve(configs, req.company_id, env.config);
    match resolved(configs, req.company_id, env.config) {
        Err(e) => Enrolled { result: Err(e), configs: kept, cache, extracted: false, saved: false },
        Ok(_) => match env.extracted {
            Err(e) => Enrolled {
                result: Err(ServiceError::of_face(e)),
                configs: kept,
                cache,
                extracted: true,
                saved: false,
            },
            Ok(feature) => {
                let person = person_of(req, feature, env.stamp);
                Enrolled {
                    result: after_save(person, env.saved),
                    configs: kept,
                    cache: cache_after_save(cache, person, env.saved),
                    extracted: true,
                    saved: true,
                }
            },
        },
    }
}

/// The requests that an enrollment at `step` may still make.
pub open spec fn requests_left(step: RegisterStepView) -> nat {
    match step {
        RegisterStepView::Resolve(_) => 3,
        RegisterStepView::Extract(_) => 2,
        RegisterStepView::Save(_) => 1,
        RegisterStepView::Done(_) => 0,
    }
}

/// An enrollment taken step by step from `step` on: every request is
/// answered as `env` says, and the step that follows the answer is taken
/// next, until the end.
pub open spec fn drive_enrollment(
    step: RegisterStepView,
    configs: Map<Seq<char>, CompanyConfigView>,
    cache: Seq<PersonInfoView>,
    env: Answers,
) -> Enrolled
    decreases requests_left(step),
{
    match step {
        RegisterStepView::Resolve(req) => drive_enrollment(
            after_tenant(configs, req, env.config),
            configs_after_resolve(configs, req.company_id, env.config),
            cache,
            env,
        ),
        RegisterStepView::Extract(req) => {
            let rest = drive_enrollment(
                after_extract(req, env.extracted, env.stamp),
                configs,
                cache,
                env,
            );
            Enrolled { extracted: true, ..rest }
        },
        RegisterStepView::Save(person) => Enrolled {
            result: after_save(person, env.saved),
            configs,
            cache: cache_after_save(cache, person, env.saved),
            extracted: false,
            saved: true,
        },
        RegisterStepView::Done(result) => Enrolled {
            result,
            configs,
            cache,
            extracted: false,
            saved: false,
        },
    }
}

/// Taking an enrollment step by step, from its first step to its end, comes
/// to what `enrollment` says.
pub proof fn lemma_steps_make_enrollment(
    configs: Map<Seq<char>, CompanyConfigView>,
    cache: Seq<PersonInfoView>,
    req: RegisterReqView,
    env: Answers,
)
    ensures
        drive_enrollment(begin_enrollment(configs, req), configs, cache, env) == enrollment(
            configs,
            cache,
            req,
            env,
        ),
{
    reveal_with_fuel(drive_enrollment, 4);
}

} // verus!
