use vstd::prelude::*;

verus! {

/// The ways a run can fail. Each aborts the run with exit code 2.
#[derive(Debug, Clone, Copy, PartialEq, Eq, Structural)]
pub enum DdnsError {
    /// The record name is neither the zone name nor a name under it.
    Input,
    /// A request could not be completed.
    Network,
    /// A response body was not JSON of the expected shape.
    Parse,
    /// The provider returned no zone where one was required, or answered the
    /// update with a status other than success.
    Provider,
    /// The update body could not be encoded.
    Serialization,
}

impl DdnsError {
    /// A short human-readable description of the error.
    pub fn message(&self) -> (r: String)
        ensures
            *self == DdnsError::Input ==> r@ == "Hostname is not a FQDN, please try again"@,
            *self == DdnsError::Network ==> r@ == "request to a remote service failed"@,
            *self == DdnsError::Parse ==> r@ == "response is not JSON of the expected shape"@,
            *self == DdnsError::Provider ==> r@ == "provider returned no zone of that name, or refused the update"@,
            *self == DdnsError::Serialization ==> r@ == "update request could not be encoded"@,
    {
        match self {
            DdnsError::Input => String::from_str("Hostname is not a FQDN, please try again"),
            DdnsError::Network => String::from_str("request to a remote service failed"),
            DdnsError::Parse => String::from_str("response is not JSON of the expected shape"),
            DdnsError::Provider => String::from_str("provider returned no zone of that name, or refused the update"),
            DdnsError::Serialization => String::from_str("update request could not be encoded"),
        }
    }
}

} // verus!
