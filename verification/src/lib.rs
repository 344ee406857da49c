//! Multi-tenant face verification for access control.
//!
//! A live face sample is matched against the persons that a tenant has
//! enrolled, and a match is pushed to the tenant's endpoint, whose answer
//! decides whether the door opens.
//!
//! The crate holds the decisions of that pipeline and none of its I/O. The
//! sensor, the record store and the tenant's endpoint are driven by the
//! caller: an operation of [`FaceAttendanceService`] returns a step, which is
//! either the end or one request (capture a sample, score two templates, load
//! a tenant's persons, push a result); the caller performs the request and
//! hands the answer to the step, which gives the next step. A step is used up
//! by its answer, so that no request is answered twice.
//!
//! What a whole operation comes to, for every way in which the surroundings
//! may answer, is said in `run` and [`enrollment`] and proved equal to taking
//! it step by step; what follows from it is proved in `laws`.

pub mod ambient;
pub mod api;
pub mod config_store;
pub mod enrollment;
pub mod error;
pub mod ident;
pub mod laws;
pub mod model;
pub mod notify;
pub mod person_cache;
pub mod protocol;
pub mod run;
pub mod score;
pub mod service;

pub use error::{FaceError, ProviderFault, ServiceError, StoreFault};
pub use model::{
    CompanyConfig, MatchOutcome, PersonInfo, RegisterReq, ThirdPartyResp, VerifyResult,
};
pub use notify::PushOutcome;
pub use score::Similarity;
pub use service::{
    ConfigStep, FaceAttendanceService, PendingCapture, PendingConfig, PendingExtract,
    PendingLoad, PendingPush, PendingPut, PendingSave, PendingScore, PendingTenant, RegisterStep,
    VerifyStep,
};
