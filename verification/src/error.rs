//! Failures of the verification pipeline.

use vstd::prelude::*;

verus! {

/// A failure reported by the biometric provider.
#[derive(Clone, Copy, Debug, PartialEq, Eq, Structural)]
pub enum FaceError {
    /// The sensor or the extraction step failed.
    CaptureFailed,
    /// The sample holds no face.
    NoFaceDetected,
    /// A stored template could not be decoded.
    FeatureDecodeError,
}

/// What a provider says went wrong, kind by kind.
#[derive(Clone, Copy, Debug, PartialEq, Eq, Structural)]
pub enum ProviderFault {
    /// The provider could not be brought up.
    InitFailed,
    /// The camera failed.
    CameraError,
    /// An image could not be read or converted.
    ImageError,
    /// No template could be extracted from an image.
    FeatureExtractFailed,
    /// A stored template could not be decoded.
    FeatureDecodeFailed,
    /// The sample holds no face.
    NoFaceDetected,
    /// The platform has no provider.
    PlatformNotSupported,
    /// Anything else.
    Other,
}

impl FaceError {
    /// The failure that stands for what a provider says went wrong. A sample
    /// without a face and a template that cannot be decoded keep their kind;
    /// everything else is a failure of the sensor or the extraction.
    pub open spec fn of_fault(fault: ProviderFault) -> FaceError {
        match fault {
            ProviderFault::NoFaceDetected => FaceError::NoFaceDetected,
            ProviderFault::FeatureDecodeFailed => FaceError::FeatureDecodeError,
            _ => FaceError::CaptureFailed,
        }
    }

    /// Sorts what a provider says went wrong into the failures that a
    /// request can end with.
    pub fn from_fault(fault: ProviderFault) -> (r: FaceError)
        ensures
            r == Self::of_fault(fault),
    {
        match fault {
            ProviderFault::NoFaceDetected => FaceError::NoFaceDetected,
            ProviderFault::FeatureDecodeFailed => FaceError::FeatureDecodeError,
            ProviderFault::InitFailed => FaceError::CaptureFailed,
            ProviderFault::CameraError => FaceError::CaptureFailed,
            ProviderFault::ImageError => FaceError::CaptureFailed,
            ProviderFault::FeatureExtractFailed => FaceError::CaptureFailed,
            ProviderFault::PlatformNotSupported => FaceError::CaptureFailed,
            ProviderFault::Other => FaceError::CaptureFailed,
        }
    }
}

/// A failure reported by the persistent store.
#[derive(Clone, Copy, Debug, PartialEq, Eq, Structural)]
pub struct StoreFault;

/// Every failure a request can end with.
#[derive(Clone, Copy, Debug, PartialEq, Eq, Structural)]
pub enum ServiceError {
    /// The tenant has no configuration.
    NotConfigured,
    /// The sensor or the extraction step failed.
    CaptureFailed,
    /// The sample holds no face.
    NoFaceDetected,
    /// A stored template could not be decoded.
    FeatureDecodeError,
    /// The tenant's endpoint did not answer within the deadline: the decision
    /// is unknown, which is not a denial.
    RemoteTimeout,
    /// The tenant's endpoint answered with this non-success status.
    RemoteError(u16),
    /// The request never reached the tenant's endpoint.
    RemoteTransport,
    /// The answer of the tenant's endpoint is no gate decision.
    RemoteDecodeError,
    /// The persistent store failed.
    StorageError,
}

impl ServiceError {
    /// The service failure that stands for a provider failure, kind for kind.
    pub open spec fn of_face(e: FaceError) -> ServiceError {
        match e {
            FaceError::CaptureFailed => ServiceError::CaptureFailed,
            FaceError::NoFaceDetected => ServiceError::NoFaceDetected,
            FaceError::FeatureDecodeError => ServiceError::FeatureDecodeError,
        }
    }

    /// Surfaces a provider failure unchanged in kind.
    pub fn from_face(e: FaceError) -> (r: ServiceError)
        ensures
            r == Self::of_face(e),
    {
        match e {
            FaceError::CaptureFailed => ServiceError::CaptureFailed,
            FaceError::NoFaceDetected => ServiceError::NoFaceDetected,
            FaceError::FeatureDecodeError => ServiceError::FeatureDecodeError,
        }
    }

    /// Whether the failure leaves the remote decision unknown, as opposed to
    /// an answer that was received and says no.
    pub open spec fn outcome_unknown(self) -> bool {
        self == ServiceError::RemoteTimeout
    }

    /// Tells a deadline that passed from every other failure.
    pub fn is_outcome_unknown(&self) -> (r: bool)
        ensures
            r == self.outcome_unknown(),
    {
        match self {
            ServiceError::RemoteTimeout => true,
            _ => false,
        }
    }
}

} // verus!
