use vstd::prelude::*;

verus! {

/// The ways in which one invocation of the assistant can fail.
#[derive(Debug, Clone, Copy, PartialEq, Eq, Structural)]
pub enum CommitError {
    /// Missing or invalid settings, or an empty required input.
    Configuration,
    /// The selected model is not among the provider's live models.
    Validation,
    /// The provider could not be reached.
    Network,
    /// The response body does not have the expected shape, or holds no choice.
    MalformedResponse,
    /// The provider answered with an error payload.
    ProviderError,
    /// There are no changes to commit.
    EmptyDiff,
    /// The source-control tool failed.
    SubprocessFailure,
}

impl CommitError {
    /// The text that describes the error.
    pub open spec fn description(self) -> Seq<char> {
        match self {
            CommitError::Configuration => "invalid or missing configuration"@,
            CommitError::Validation => "Invalid model, please provide a valid model"@,
            CommitError::Network => "could not reach the provider"@,
            CommitError::MalformedResponse => "Invalid response from AI"@,
            CommitError::ProviderError => "the provider returned an error"@,
            CommitError::EmptyDiff => "No changes to commit"@,
            CommitError::SubprocessFailure => "the source-control command failed"@,
        }
    }

    /// A short human-readable description of the error.
    pub fn describe(&self) -> (r: &'static str)
        ensures
            r@ == self.description(),
    {
        match self {
            CommitError::Configuration => "invalid or missing configuration",
            CommitError::Validation => "Invalid model, please provide a valid model",
            CommitError::Network => "could not reach the provider",
            CommitError::MalformedResponse => "Invalid response from AI",
            CommitError::ProviderError => "the provider returned an error",
            CommitError::EmptyDiff => "No changes to commit",
            CommitError::SubprocessFailure => "the source-control command failed",
        }
    }
}

} // verus!
