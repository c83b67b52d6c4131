use vstd::prelude::*;
use vstd::string::StringExecFns;
use crate::error::{AASCheckError, CheckError};

verus! {

/// Which kind of document is checked.
#[derive(Clone, Copy, PartialEq, Eq, Structural, Debug)]
pub enum Mode {
    /// A whole environment: shells, submodels and concept descriptions.
    AAS,
    /// A single submodel, checked inside a synthetic environment.
    Submodel,
}

/// What `str::to_lowercase` returns for the given characters.
pub uninterp spec fn lower_of(s: Seq<char>) -> Seq<char>;

/// Relies on `str::to_lowercase`: the result depends on the characters alone.
#[verifier::external_body]
fn lowercase(s: &str) -> (r: String)
    ensures
        r@ == lower_of(s@),
{
    s.to_lowercase()
}

/// The mode that a lower-cased selector names, if any.
pub open spec fn mode_of(lowered: Seq<char>) -> Option<Mode> {
    if lowered == "aas"@ {
        Some(Mode::AAS)
    } else if lowered == "submodel"@ {
        Some(Mode::Submodel)
    } else {
        None
    }
}

/// What selecting a mode by `lowered`, the lower-cased form of `given`, yields.
pub open spec fn selection(lowered: Seq<char>, given: Seq<char>) -> Result<Mode, CheckError> {
    match mode_of(lowered) {
        Some(m) => Ok(m),
        None => Err(CheckError::InvalidMode(given)),
    }
}

/// The phrase that names the kind of document a mode checks.
pub open spec fn kind_phrase(m: Mode) -> Seq<char> {
    match m {
        Mode::AAS => "Asset Administration Shell"@,
        Mode::Submodel => "Submodel of an Asset Administration Shell"@,
    }
}

impl Mode {
    /// Selects the mode named by `lowered`, the lower-cased form of `given`;
    /// an unknown name is an error that carries `given`.
    pub fn from_lowered(lowered: &str, given: &str) -> (r: Result<Mode, AASCheckError>)
        ensures
            crate::error::result_view(r) == selection(lowered@, given@),
    {
        let l = lowered.to_owned();
        let aas = String::from_str("aas");
        let submodel = String::from_str("submodel");
        proof {
            reveal_strlit("aas");
            reveal_strlit("submodel");
        }
        if l == aas {
            Ok(Mode::AAS)
        } else if l == submodel {
            Ok(Mode::Submodel)
        } else {
            Err(AASCheckError::InvalidMode(given.to_owned()))
        }
    }

    /// Selects a mode by name, ignoring case: `aas` or `submodel`.
    pub fn parse(s: &str) -> (r: Result<Mode, AASCheckError>)
        ensures
            crate::error::result_view(r) == selection(lower_of(s@), s@),
    {
        let lowered = lowercase(s);
        Mode::from_lowered(lowered.as_str(), s)
    }

    /// The phrase that names the kind of document this mode checks.
    pub fn kind_name(self) -> (r: &'static str)
        ensures
            r@ == kind_phrase(self),
    {
        match self {
            Mode::AAS => "Asset Administration Shell",
            Mode::Submodel => "Submodel of an Asset Administration Shell",
        }
    }
}

impl std::str::FromStr for Mode {
    type Err = AASCheckError;

    fn from_str(s: &str) -> (r: Result<Mode, AASCheckError>)
        ensures
            crate::error::result_view(r) == selection(lower_of(s@), s@),
    {
        Mode::parse(s)
    }
}

} // verus!
