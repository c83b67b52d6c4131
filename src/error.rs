use vstd::prelude::*;

verus! {

/// The first schema violation found in a document.
#[derive(Clone, Debug)]
pub struct Violation {
    /// JSON pointer to the instance node that failed.
    pub path: String,
    /// The schema keyword whose constraint failed (`required`, `type`, ...).
    pub rule: String,
    /// A human-readable description of the failure.
    pub message: String,
}

/// Mathematical form of a [`Violation`].
pub struct ViolationModel {
    pub path: Seq<char>,
    pub rule: Seq<char>,
    pub message: Seq<char>,
}

impl View for Violation {
    type V = ViolationModel;

    open spec fn view(&self) -> ViolationModel {
        ViolationModel { path: self.path@, rule: self.rule@, message: self.message@ }
    }
}

/// Everything that can stop a check.
#[derive(Clone, Debug)]
pub enum AASCheckError {
    /// The mode selector named neither `AAS` nor `Submodel`; holds the given text.
    InvalidMode(String),
    /// A document was not well-formed JSON; holds the parser's message.
    MalformedJson(String),
    /// The schema could not be compiled; holds the compiler's message.
    InvalidSchema(String),
    /// The document does not conform to the schema.
    ValidationFailed(Violation),
}

/// Mathematical form of an [`AASCheckError`].
pub enum CheckError {
    InvalidMode(Seq<char>),
    MalformedJson(Seq<char>),
    InvalidSchema(Seq<char>),
    ValidationFailed(ViolationModel),
}

impl View for AASCheckError {
    type V = CheckError;

    open spec fn view(&self) -> CheckError {
        match self {
            AASCheckError::InvalidMode(s) => CheckError::InvalidMode(s@),
            AASCheckError::MalformedJson(s) => CheckError::MalformedJson(s@),
            AASCheckError::InvalidSchema(s) => CheckError::InvalidSchema(s@),
            AASCheckError::ValidationFailed(v) => CheckError::ValidationFailed(v@),
        }
    }
}

/// The text that describes an error.
pub open spec fn error_text(e: CheckError) -> Seq<char> {
    match e {
        CheckError::InvalidMode(s) => s,
        CheckError::MalformedJson(s) => s,
        CheckError::InvalidSchema(s) => s,
        CheckError::ValidationFailed(v) => v.message,
    }
}

/// The view of a result whose error is an [`AASCheckError`].
pub open spec fn result_view<T>(r: Result<T, AASCheckError>) -> Result<T, CheckError> {
    match r {
        Ok(t) => Ok(t),
        Err(e) => Err(e@),
    }
}

impl AASCheckError {
    /// The text that describes this error.
    pub fn message(&self) -> (r: String)
        ensures
            r@ == error_text(self@),
    {
        match self {
            AASCheckError::InvalidMode(s) => s.clone(),
            AASCheckError::MalformedJson(s) => s.clone(),
            AASCheckError::InvalidSchema(s) => s.clone(),
            AASCheckError::ValidationFailed(v) => v.message.clone(),
        }
    }
}

} // verus!
