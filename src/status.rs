use vstd::prelude::*;

verus! {

/// The value that the firmware uses for a successful call.
pub const SUCCESS_VALUE: usize = 0;

/// The bit that marks a status as an error rather than a warning.
pub const ERROR_BIT: usize = usize::MAX - usize::MAX / 2;

/// Status of a call whose parameter was refused.
pub const INVALID_PARAMETER_VALUE: usize = ERROR_BIT + 2;

/// Status of a call that found no data ready.
pub const NOT_READY_VALUE: usize = ERROR_BIT + 6;

/// The result of every firmware call: an open classification over the raw
/// integer that the firmware hands back.
#[derive(Clone, Copy, Debug, PartialEq, Eq, Structural)]
pub struct EFIStatus {
    pub value: usize,
}

impl EFIStatus {
    pub open spec fn spec_is_success(self) -> bool {
        self.value == SUCCESS_VALUE
    }

    pub open spec fn spec_is_error(self) -> bool {
        self.value >= ERROR_BIT
    }

    /// The status of a successful call.
    pub fn success() -> (r: EFIStatus)
        ensures
            r.value == SUCCESS_VALUE,
    {
        EFIStatus { value: SUCCESS_VALUE }
    }

    /// The status of a call whose parameter was refused.
    pub fn invalid_parameter() -> (r: EFIStatus)
        ensures
            r.value == INVALID_PARAMETER_VALUE,
    {
        EFIStatus { value: INVALID_PARAMETER_VALUE }
    }

    /// The status of a call that found nothing ready.
    pub fn not_ready() -> (r: EFIStatus)
        ensures
            r.value == NOT_READY_VALUE,
    {
        EFIStatus { value: NOT_READY_VALUE }
    }

    /// Takes a raw value from the firmware as it is.
    pub fn from_raw(value: usize) -> (r: EFIStatus)
        ensures
            r.value == value,
    {
        EFIStatus { value }
    }

    /// The raw value, as the firmware wrote it.
    pub fn raw(&self) -> (r: usize)
        ensures
            r == self.value,
    {
        self.value
    }

    pub fn is_success(&self) -> (r: bool)
        ensures
            r == self.spec_is_success(),
            r <==> self.value == 0,
    {
        self.value == SUCCESS_VALUE
    }

    /// True of the error range, whose values have the high bit set.
    pub fn is_error(&self) -> (r: bool)
        ensures
            r == self.spec_is_error(),
    {
        self.value >= ERROR_BIT
    }
}

/// The success value is zero, and every other value is classified as not
/// success.
pub proof fn lemma_success_is_zero(s: EFIStatus)
    ensures
        SUCCESS_VALUE == 0,
        s.spec_is_success() <==> s.value == 0,
        s.value != 0 ==> !s.spec_is_success(),
{
}

} // verus!
