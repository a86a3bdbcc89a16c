use vstd::prelude::*;

verus! {

/// The fixed classification of an indicator's purpose, chosen once at
/// construction and never changed afterwards.
#[derive(Clone, Copy, Debug, PartialEq, Eq, Structural)]
pub enum AppIndicatorCategory {
    ApplicationStatus,
    Communications,
    SystemServices,
    Hardware,
    Other,
}

/// The mutable state of an indicator, controlling its visibility and
/// emphasis.  Any value may be set from any other at any time.
#[derive(Clone, Copy, Debug, PartialEq, Eq, Structural)]
pub enum AppIndicatorStatus {
    Passive,
    Active,
    Attention,
}

impl AppIndicatorCategory {
    /// The integral code the native layer uses for this category.
    pub open spec fn spec_code(self) -> u32 {
        match self {
            AppIndicatorCategory::ApplicationStatus => 0,
            AppIndicatorCategory::Communications => 1,
            AppIndicatorCategory::SystemServices => 2,
            AppIndicatorCategory::Hardware => 3,
            AppIndicatorCategory::Other => 4,
        }
    }

    /// The integral code the native layer uses for this category.
    pub fn code(self) -> (r: u32)
        ensures
            r == self.spec_code(),
    {
        match self {
            AppIndicatorCategory::ApplicationStatus => 0,
            AppIndicatorCategory::Communications => 1,
            AppIndicatorCategory::SystemServices => 2,
            AppIndicatorCategory::Hardware => 3,
            AppIndicatorCategory::Other => 4,
        }
    }

    /// The category a native integral code stands for.
    ///
    /// The native code space is open — a build of the native library could
    /// hand back a value this crate does not know — so an unrecognized code
    /// yields `None` rather than aborting the process.
    pub fn from_code(code: u32) -> (r: Option<Self>)
        ensures
            r is Some <==> code <= 4,
            r matches Some(k) ==> k.spec_code() == code,
    {
        match code {
            0 => Some(AppIndicatorCategory::ApplicationStatus),
            1 => Some(AppIndicatorCategory::Communications),
            2 => Some(AppIndicatorCategory::SystemServices),
            3 => Some(AppIndicatorCategory::Hardware),
            4 => Some(AppIndicatorCategory::Other),
            _ => None,
        }
    }
}

impl AppIndicatorStatus {
    /// The integral code the native layer uses for this status.
    pub open spec fn spec_code(self) -> u32 {
        match self {
            AppIndicatorStatus::Passive => 0,
            AppIndicatorStatus::Active => 1,
            AppIndicatorStatus::Attention => 2,
        }
    }

    /// The integral code the native layer uses for this status.
    pub fn code(self) -> (r: u32)
        ensures
            r == self.spec_code(),
    {
        match self {
            AppIndicatorStatus::Passive => 0,
            AppIndicatorStatus::Active => 1,
            AppIndicatorStatus::Attention => 2,
        }
    }

    /// The status a native integral code stands for; `None` on a code this
    /// crate does not know, rather than aborting the process.
    pub fn from_code(code: u32) -> (r: Option<Self>)
        ensures
            r is Some <==> code <= 2,
            r matches Some(k) ==> k.spec_code() == code,
    {
        match code {
            0 => Some(AppIndicatorStatus::Passive),
            1 => Some(AppIndicatorStatus::Active),
            2 => Some(AppIndicatorStatus::Attention),
            _ => None,
        }
    }
}

/// The category codes identify categories uniquely: two categories with
/// the same code are the same category.
pub proof fn lemma_category_code_injective(a: AppIndicatorCategory, b: AppIndicatorCategory)
    ensures
        a.spec_code() == b.spec_code() ==> a == b,
{
}

/// The status codes identify statuses uniquely: two statuses with the
/// same code are the same status.
pub proof fn lemma_status_code_injective(a: AppIndicatorStatus, b: AppIndicatorStatus)
    ensures
        a.spec_code() == b.spec_code() ==> a == b,
{
}

} // verus!
