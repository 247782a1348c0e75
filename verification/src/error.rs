//! The host's status codes and their one translation into results.

use vstd::prelude::*;
use vstd::std_specs::convert::FromSpec;

verus! {

/// What a status code of the host means.
#[derive(Clone, Debug, PartialEq, Eq)]
pub enum DergError {
    /// The host gave a code, or a kind of member, that this crate does not know.
    Unknown,
    /// The call went through. Present so that every code has a translation.
    Success,
    /// The host found nothing under the handle or the name it was given.
    NullOrNotFound,
}

/// The result of a call that the host answers with a status code.
pub type DergResult<T = ()> = Result<T, DergError>;

/// The meaning of each status code: `0`, `-1`, anything else.
pub open spec fn status_meaning(code: i32) -> DergError {
    if code == 0 {
        DergError::Success
    } else if code == -1 {
        DergError::NullOrNotFound
    } else {
        DergError::Unknown
    }
}

impl From<i32> for DergError {
    fn from(value: i32) -> (r: Self) {
        match value {
            0 => DergError::Success,
            -1 => DergError::NullOrNotFound,
            _ => DergError::Unknown,
        }
    }
}

impl vstd::std_specs::convert::FromSpecImpl<i32> for DergError {
    open spec fn obeys_from_spec() -> bool {
        true
    }

    open spec fn from_spec(value: i32) -> Self {
        status_meaning(value)
    }
}

impl DergError {
    /// What `to_result` returns.
    pub open spec fn spec_to_result(&self) -> Result<(), DergError> {
        match self {
            DergError::Success => Ok(()),
            DergError::NullOrNotFound => Err(DergError::NullOrNotFound),
            DergError::Unknown => Err(DergError::Unknown),
        }
    }

    /// `Ok` for `Success`, the value itself as the error otherwise.
    pub fn to_result(&self) -> (r: DergResult)
        ensures
            r == self.spec_to_result(),
            r is Ok <==> *self == DergError::Success,
            r is Err ==> r == Err::<(), DergError>(*self),
    {
        match self {
            DergError::Success => Ok(()),
            DergError::NullOrNotFound => Err(DergError::NullOrNotFound),
            DergError::Unknown => Err(DergError::Unknown),
        }
    }

    /// The variant's name.
    pub fn to_string(&self) -> (s: String)
        ensures
            s@ == match *self {
                DergError::Unknown => "Unknown"@,
                DergError::Success => "Success"@,
                DergError::NullOrNotFound => "NullOrNotFound"@,
            },
    {
        match self {
            DergError::Unknown => "Unknown".to_owned(),
            DergError::Success => "Success".to_owned(),
            DergError::NullOrNotFound => "NullOrNotFound".to_owned(),
        }
    }
}

/// What `derg_result` returns for each status code.
pub open spec fn spec_derg_result(value: i32) -> Result<(), DergError> {
    if value == 0 {
        Ok(())
    } else if value == -1 {
        Err(DergError::NullOrNotFound)
    } else {
        Err(DergError::Unknown)
    }
}

/// Translates a status code: `Ok` for `0`, `NullOrNotFound` for `-1`,
/// `Unknown` for every other code.
pub fn derg_result(value: i32) -> (r: DergResult)
    ensures
        r == spec_derg_result(value),
        r == status_meaning(value).spec_to_result(),
{
    DergError::from(value).to_result()
}

/// The translation is total over the 32-bit codes and splits them three ways:
/// `Success` exactly for `0`, `NullOrNotFound` exactly for `-1`, `Unknown`
/// exactly for the rest; and only `0` translates to `Ok`.
pub proof fn lemma_status_translation(code: i32)
    ensures
        DergError::from_spec(code) == DergError::Success <==> code == 0,
        DergError::from_spec(code) == DergError::NullOrNotFound <==> code == -1,
        DergError::from_spec(code) == DergError::Unknown <==> (code != 0 && code != -1),
        spec_derg_result(code) is Ok <==> code == 0,
        spec_derg_result(code) == DergError::from_spec(code).spec_to_result(),
{
}

} // verus!
