//! The records that the pipeline handles, each with its mathematical view.

use crate::score::Similarity;
use vstd::prelude::*;

verus! {

/// Status by which a tenant's endpoint allows the physical action. Every
/// other value denies it.
pub const ALLOW_STATUS: i32 = 9;

/// Status of the decision that the library makes by itself when nobody
/// matched.
pub const UNRECOGNIZED_STATUS: i32 = 1;

/// Configuration of one tenant.
#[derive(Debug)]
pub struct CompanyConfig {
    /// The tenant, key of the configuration.
    pub company_id: String,
    /// Address of the tenant's endpoint; not empty.
    pub third_party_api: String,
    /// Kept with the configuration; nothing expires by it.
    pub cache_expire_seconds: u32,
    /// Creation time, milliseconds since the epoch.
    pub created_at: i64,
}

/// What a `CompanyConfig` holds.
pub struct CompanyConfigView {
    pub company_id: Seq<char>,
    pub third_party_api: Seq<char>,
    pub cache_expire_seconds: u32,
    pub created_at: i64,
}

impl View for CompanyConfig {
    type V = CompanyConfigView;

    open spec fn view(&self) -> CompanyConfigView {
        CompanyConfigView {
            company_id: self.company_id@,
            third_party_api: self.third_party_api@,
            cache_expire_seconds: self.cache_expire_seconds,
            created_at: self.created_at,
        }
    }
}

impl CompanyConfigView {
    /// The endpoint address is not empty.
    pub open spec fn valid(self) -> bool {
        self.third_party_api.len() > 0
    }
}

impl Clone for CompanyConfig {
    fn clone(&self) -> (r: Self)
        ensures
            r == *self,
    {
        CompanyConfig {
            company_id: self.company_id.clone(),
            third_party_api: self.third_party_api.clone(),
            cache_expire_seconds: self.cache_expire_seconds,
            created_at: self.created_at,
        }
    }
}

/// One enrolled person.
#[derive(Debug)]
pub struct PersonInfo {
    /// Identifier that the library generated at enrollment.
    pub local_id: String,
    /// The tenant that the person belongs to.
    pub company_id: String,
    /// Display name.
    pub name: String,
    /// Where the enrollment image came from.
    pub img_path: String,
    /// Identifier of the person in the tenant's own system.
    pub third_party_id: String,
    /// The biometric template, as the provider serialized it.
    pub face_feature: String,
    /// Enrollment time, milliseconds since the epoch.
    pub create_time: i64,
}

/// What a `PersonInfo` holds.
pub struct PersonInfoView {
    pub local_id: Seq<char>,
    pub company_id: Seq<char>,
    pub name: Seq<char>,
    pub img_path: Seq<char>,
    pub third_party_id: Seq<char>,
    pub face_feature: Seq<char>,
    pub create_time: i64,
}

impl View for PersonInfo {
    type V = PersonInfoView;

    open spec fn view(&self) -> PersonInfoView {
        PersonInfoView {
            local_id: self.local_id@,
            company_id: self.company_id@,
            name: self.name@,
            img_path: self.img_path@,
            third_party_id: self.third_party_id@,
            face_feature: self.face_feature@,
            create_time: self.create_time,
        }
    }
}

impl DeepView for PersonInfo {
    type V = PersonInfoView;

    open spec fn deep_view(&self) -> PersonInfoView {
        self@
    }
}

impl Clone for PersonInfo {
    fn clone(&self) -> (r: Self)
        ensures
            r == *self,
    {
        PersonInfo {
            local_id: self.local_id.clone(),
            company_id: self.company_id.clone(),
            name: self.name.clone(),
            img_path: self.img_path.clone(),
            third_party_id: self.third_party_id.clone(),
            face_feature: self.face_feature.clone(),
            create_time: self.create_time,
        }
    }
}

/// An enrollment request.
#[derive(Debug)]
pub struct RegisterReq {
    pub company_id: String,
    pub name: String,
    pub img_path: String,
    pub third_party_id: String,
}

/// What a `RegisterReq` holds.
pub struct RegisterReqView {
    pub company_id: Seq<char>,
    pub name: Seq<char>,
    pub img_path: Seq<char>,
    pub third_party_id: Seq<char>,
}

impl View for RegisterReq {
    type V = RegisterReqView;

    open spec fn view(&self) -> RegisterReqView {
        RegisterReqView {
            company_id: self.company_id@,
            name: self.name@,
            img_path: self.img_path@,
            third_party_id: self.third_party_id@,
        }
    }
}

/// The result of one matched verification, as it is pushed to the tenant's
/// endpoint.
#[derive(Debug)]
pub struct VerifyResult {
    pub company_id: String,
    pub local_id: String,
    pub third_party_id: String,
    pub name: String,
    pub success: bool,
    /// Milliseconds since the epoch.
    pub timestamp: i64,
    pub request_id: String,
}

/// What a `VerifyResult` holds.
pub struct VerifyResultView {
    pub company_id: Seq<char>,
    pub local_id: Seq<char>,
    pub third_party_id: Seq<char>,
    pub name: Seq<char>,
    pub success: bool,
    pub timestamp: i64,
    pub request_id: Seq<char>,
}

impl View for VerifyResult {
    type V = VerifyResultView;

    open spec fn view(&self) -> VerifyResultView {
        VerifyResultView {
            company_id: self.company_id@,
            local_id: self.local_id@,
            third_party_id: self.third_party_id@,
            name: self.name@,
            success: self.success,
            timestamp: self.timestamp,
            request_id: self.request_id@,
        }
    }
}

impl Clone for VerifyResult {
    fn clone(&self) -> (r: Self)
        ensures
            r == *self,
    {
        VerifyResult {
            company_id: self.company_id.clone(),
            local_id: self.local_id.clone(),
            third_party_id: self.third_party_id.clone(),
            name: self.name.clone(),
            success: self.success,
            timestamp: self.timestamp,
            request_id: self.request_id.clone(),
        }
    }
}

/// A gate decision: what a tenant's endpoint answers, or what the library
/// answers by itself when nobody matched.
#[derive(Debug)]
pub struct ThirdPartyResp {
    pub status: i32,
    pub message: String,
    pub request_id: String,
}

/// What a `ThirdPartyResp` holds.
pub struct ThirdPartyRespView {
    pub status: i32,
    pub message: Seq<char>,
    pub request_id: Seq<char>,
}

impl View for ThirdPartyResp {
    type V = ThirdPartyRespView;

    open spec fn view(&self) -> ThirdPartyRespView {
        ThirdPartyRespView {
            status: self.status,
            message: self.message@,
            request_id: self.request_id@,
        }
    }
}

impl ThirdPartyRespView {
    /// The decision allows the physical action.
    pub open spec fn allows(self) -> bool {
        self.status == ALLOW_STATUS
    }
}

impl ThirdPartyResp {
    /// Whether the decision allows the physical action.
    pub fn is_allowed(&self) -> (r: bool)
        ensures
            r == self@.allows(),
    {
        self.status == ALLOW_STATUS
    }
}

impl Clone for ThirdPartyResp {
    fn clone(&self) -> (r: Self)
        ensures
            r == *self,
    {
        ThirdPartyResp {
            status: self.status,
            message: self.message.clone(),
            request_id: self.request_id.clone(),
        }
    }
}

/// The outcome of matching one live sample against a tenant's persons. It
/// lives for one verification and is never stored.
#[derive(Debug)]
pub struct MatchOutcome {
    pub company_id: String,
    pub matched: bool,
    /// The person that matched, if one did.
    pub person: Option<PersonInfo>,
    /// The score of the person that matched; zero when nobody did.
    pub similarity: Similarity,
    pub request_id: String,
    /// Milliseconds since the epoch.
    pub timestamp: i64,
}

/// What a `MatchOutcome` holds.
pub struct MatchOutcomeView {
    pub company_id: Seq<char>,
    pub matched: bool,
    pub person: Option<PersonInfoView>,
    pub similarity: Similarity,
    pub request_id: Seq<char>,
    pub timestamp: i64,
}

impl View for MatchOutcome {
    type V = MatchOutcomeView;

    open spec fn view(&self) -> MatchOutcomeView {
        MatchOutcomeView {
            company_id: self.company_id@,
            matched: self.matched,
            person: match self.person {
                Some(p) => Some(p@),
                None => None,
            },
            similarity: self.similarity,
            request_id: self.request_id@,
            timestamp: self.timestamp,
        }
    }
}

} // verus!
