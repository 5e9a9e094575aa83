use vstd::prelude::*;

verus! {

/// The navigation type.
#[derive(Debug, Copy, Clone, Hash, PartialEq, Eq)]
pub enum NavigationType {
    /// Click on `a` tag.
    LinkClick,
    /// Click on `form` tag.
    FormSubmit,
    /// Click on back button.
    BackForward,
    /// Click on reload button.
    Reload,
    /// Form resubmit.
    FormResubmit,
    /// Other navigation type.
    Other,
}

impl NavigationType {
    /// The navigation type code used by the engine.
    pub open spec fn spec_code(self) -> i32 {
        match self {
            NavigationType::LinkClick => 0,
            NavigationType::FormSubmit => 1,
            NavigationType::BackForward => 2,
            NavigationType::Reload => 3,
            NavigationType::FormResubmit => 4,
            NavigationType::Other => 5,
        }
    }

    /// The navigation type that has the code `code`, if any.
    pub open spec fn spec_from_code(code: i32) -> Option<Self> {
        if code == 0 {
            Some(NavigationType::LinkClick)
        } else if code == 1 {
            Some(NavigationType::FormSubmit)
        } else if code == 2 {
            Some(NavigationType::BackForward)
        } else if code == 3 {
            Some(NavigationType::Reload)
        } else if code == 4 {
            Some(NavigationType::FormResubmit)
        } else if code == 5 {
            Some(NavigationType::Other)
        } else {
            None
        }
    }

    /// The navigation type code used by the engine.
    pub fn code(self) -> (r: i32)
        ensures
            r == self.spec_code(),
    {
        match self {
            NavigationType::LinkClick => 0,
            NavigationType::FormSubmit => 1,
            NavigationType::BackForward => 2,
            NavigationType::Reload => 3,
            NavigationType::FormResubmit => 4,
            NavigationType::Other => 5,
        }
    }

    /// The navigation type that the engine reports with `code`.
    pub fn from_code(code: i32) -> (r: Self)
        requires
            Self::spec_from_code(code) is Some,
        ensures
            Self::spec_from_code(code) == Some(r),
            r.spec_code() == code,
    {
        if code == 0 {
            NavigationType::LinkClick
        } else if code == 1 {
            NavigationType::FormSubmit
        } else if code == 2 {
            NavigationType::BackForward
        } else if code == 3 {
            NavigationType::Reload
        } else if code == 4 {
            NavigationType::FormResubmit
        } else {
            NavigationType::Other
        }
    }
}

impl NavigationType {
    /// The navigation type for any code: the type with that code, and `Other`
    /// for a code no type has.
    pub open spec fn spec_from_code_or_other(code: i32) -> Self {
        match Self::spec_from_code(code) {
            Some(t) => t,
            None => NavigationType::Other,
        }
    }

    /// The navigation type for any code the engine reports: the type with that
    /// code, and `Other` for a code no type has.
    pub fn from_code_or_other(code: i32) -> (r: Self)
        ensures
            r == Self::spec_from_code_or_other(code),
    {
        if 0 <= code && code <= 5 {
            Self::from_code(code)
        } else {
            NavigationType::Other
        }
    }
}

/// Each navigation type has its own code: the code gives the type back.
pub proof fn lemma_navigation_type_code_round_trip(value: NavigationType)
    ensures
        NavigationType::spec_from_code(value.spec_code()) == Some(value),
{
}

/// The engine's navigation codes: link click 0, form submit 1, back or forward
/// 2, reload 3, form resubmit 4, other 5, and no other code.
pub proof fn lemma_navigation_type_engine_codes()
    ensures
        NavigationType::LinkClick.spec_code() == 0i32,
        NavigationType::FormSubmit.spec_code() == 1i32,
        NavigationType::BackForward.spec_code() == 2i32,
        NavigationType::Reload.spec_code() == 3i32,
        NavigationType::FormResubmit.spec_code() == 4i32,
        NavigationType::Other.spec_code() == 5i32,
        forall|c: i32| #[trigger] NavigationType::spec_from_code(c) matches Some(v) ==> v.spec_code() == c,
{
}

} // verus!
