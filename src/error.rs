use vstd::prelude::*;

verus! {

/// Why the provider could not start.
#[derive(Debug)]
pub enum ProviderError {
    /// The discovery backend is not installed on this system.
    MissingPlugin,
    /// The backend refused to start; its own message is kept as it was.
    BackendStart(String),
}

/// Why a media-remote descriptor was not taken.
#[derive(Clone, Copy, Debug, PartialEq, Eq, Structural)]
pub enum PipewireError {
    /// Discovery has already begun.
    ProvidedStarted,
    /// The backend has no descriptor property; the caller keeps the descriptor.
    OldVersion,
}

impl ProviderError {
    /// A sentence that describes the error; a backend's own message is
    /// handed back as it came.
    pub fn message(&self) -> (r: String)
        ensures
            match self {
                ProviderError::MissingPlugin => r@ == "the camera discovery plugin is missing"@,
                ProviderError::BackendStart(m) => r@ == m@,
            },
    {
        proof {
            reveal_strlit("the camera discovery plugin is missing");
        }
        match self {
            ProviderError::MissingPlugin => "the camera discovery plugin is missing".to_owned(),
            ProviderError::BackendStart(m) => m.clone(),
        }
    }
}

impl PipewireError {
    /// A sentence that describes the error.
    pub fn message(&self) -> (r: String)
        ensures
            match self {
                PipewireError::ProvidedStarted => r@
                    == "the device provider has already started"@,
                PipewireError::OldVersion => r@
                    == "the device provider does not accept a descriptor"@,
            },
    {
        proof {
            reveal_strlit("the device provider has already started");
            reveal_strlit("the device provider does not accept a descriptor");
        }
        match self {
            PipewireError::ProvidedStarted => "the device provider has already started".to_owned(),
            PipewireError::OldVersion => "the device provider does not accept a descriptor".to_owned(),
        }
    }
}

} // verus!
