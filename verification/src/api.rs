//! The answers of the three operations as the upward interface gives them:
//! the data with a word on it, or a code with the failure.

use crate::error::ServiceError;
use crate::model::{PersonInfo, ThirdPartyResp};
use vstd::prelude::*;

verus! {

/// Code of a configuration that could not be set.
pub const CONFIG_FAILED: u32 = 1001;

/// Code of an enrollment that failed.
pub const REGISTER_FAILED: u32 = 1002;

/// Code of a verification that failed. A verification that was denied has
/// not failed.
pub const VERIFY_FAILED: u32 = 1003;

/// An answer of the upward interface.
#[derive(Debug)]
pub enum ApiResp<T> {
    Success { data: T, message: &'static str },
    Error { code: u32, error: ServiceError },
}

/// The word on a configuration that was set.
pub open spec fn config_saved_text() -> Seq<char> {
    "公司配置添加成功"@
}

/// The word on a person that was enrolled.
pub open spec fn registered_text() -> Seq<char> {
    "人员注册成功"@
}

/// The word on a decision that allows the passage.
pub open spec fn gate_open_text() -> Seq<char> {
    "闸机允许开门"@
}

/// The word on a decision that does not.
pub open spec fn gate_closed_text() -> Seq<char> {
    "闸机拒绝开门"@
}

/// The word on a decision: it says open for the one status that allows,
/// and closed for every other.
pub fn gate_message(decision: &ThirdPartyResp) -> (message: &'static str)
    ensures
        message@ == if decision@.allows() {
            gate_open_text()
        } else {
            gate_closed_text()
        },
{
    if decision.is_allowed() {
        "闸机允许开门"
    } else {
        "闸机拒绝开门"
    }
}

/// The answer to the setting of a configuration.
pub fn config_resp(result: Result<(), ServiceError>) -> (resp: ApiResp<()>)
    ensures
        match result {
            Ok(_) => resp matches ApiResp::Success { message, .. } && message@
                == config_saved_text(),
            Err(e) => resp == (ApiResp::<()>::Error { code: CONFIG_FAILED, error: e }),
        },
{
    match result {
        Ok(_) => ApiResp::Success { data: (), message: "公司配置添加成功" },
        Err(e) => ApiResp::Error { code: CONFIG_FAILED, error: e },
    }
}

/// The answer to an enrollment: the person as it was enrolled, the template
/// included.
pub fn register_resp(result: Result<PersonInfo, ServiceError>) -> (resp: ApiResp<PersonInfo>)
    ensures
        match result {
            Ok(person) => resp matches ApiResp::Success { data, message } && data == person
                && message@ == registered_text(),
            Err(e) => resp == (ApiResp::<PersonInfo>::Error { code: REGISTER_FAILED, error: e }),
        },
{
    match result {
        Ok(person) => ApiResp::Success { data: person, message: "人员注册成功" },
        Err(e) => ApiResp::Error { code: REGISTER_FAILED, error: e },
    }
}

/// The answer to a verification. A decision is a success whatever it says:
/// the word on it tells an allowance from a denial. Only a verification
/// that came to no decision is an error.
pub fn verify_resp(result: Result<ThirdPartyResp, ServiceError>) -> (resp: ApiResp<ThirdPartyResp>)
    ensures
        match result {
            Ok(decision) => resp matches ApiResp::Success { data, message } && data == decision
                && message@ == if decision@.allows() {
                gate_open_text()
            } else {
                gate_closed_text()
            },
            Err(e) => resp == (ApiResp::<ThirdPartyResp>::Error { code: VERIFY_FAILED, error: e }),
        },
{
    match result {
        Ok(decision) => {
            let message = gate_message(&decision);
            ApiResp::Success { data: decision, message }
        },
        Err(e) => ApiResp::Error { code: VERIFY_FAILED, error: e },
    }
}

} // verus!
