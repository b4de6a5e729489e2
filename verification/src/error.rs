use vstd::prelude::*;

verus! {

/// The status code that NVS returns when a call succeeded.
pub const ESP_OK: i32 = 0;

/// The status code that NVS returns when a key is not present in the namespace.
pub const ESP_ERR_NVS_NOT_FOUND: i32 = 0x1102;

/// The status code that NVS returns when an entry exists but its length does
/// not fit the kind of read that was asked for.
pub const ESP_ERR_NVS_INVALID_LENGTH: i32 = 0x110c;

/// A failed NVS call: a status code other than `ESP_OK`.
#[derive(Clone, Copy, Debug, PartialEq, Eq, Structural)]
pub struct NvsError {
    code: i32,
}

impl View for NvsError {
    type V = i32;

    closed spec fn view(&self) -> i32 {
        self.code
    }
}

impl NvsError {
    #[verifier::type_invariant]
    closed spec fn well_formed(self) -> bool {
        self.code != ESP_OK
    }

    /// Wraps a status code; `None` when the code reports success.
    pub fn from_code(code: i32) -> (r: Option<NvsError>)
        ensures
            code == ESP_OK ==> r is None,
            code != ESP_OK ==> (r matches Some(e) && e@ == code),
    {
        if code == ESP_OK {
            None
        } else {
            Some(NvsError { code })
        }
    }

    /// Turns a status code into `Ok(())` on success and into the error otherwise.
    pub fn check(code: i32) -> (r: Result<(), NvsError>)
        ensures
            code == ESP_OK ==> r is Ok,
            code != ESP_OK ==> (r matches Err(e) && e@ == code),
    {
        match NvsError::from_code(code) {
            None => Ok(()),
            Some(e) => Err(e),
        }
    }

    /// The status code that this error carries.
    pub fn code(&self) -> (r: i32)
        ensures
            r == self@,
            r != ESP_OK,
    {
        proof {
            use_type_invariant(self);
        }
        self.code
    }
}

} // verus!
