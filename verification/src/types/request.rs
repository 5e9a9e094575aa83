use vstd::prelude::*;

verus! {

/// The asynchronous request state.
#[derive(Debug, Copy, Clone, Hash, PartialEq, Eq)]
pub enum AsynRequestState {
    /// The request is ok.
    Success,
    /// The request is fail.
    Fail,
}

impl AsynRequestState {
    /// The state code used by the engine.
    pub open spec fn spec_code(self) -> i32 {
        match self {
            AsynRequestState::Success => 0,
            AsynRequestState::Fail => 1,
        }
    }

    /// The state that has the code `code`, if any.
    pub open spec fn spec_from_code(code: i32) -> Option<Self> {
        if code == 0 {
            Some(AsynRequestState::Success)
        } else if code == 1 {
            Some(AsynRequestState::Fail)
        } else {
            None
        }
    }

    /// The state code used by the engine.
    pub fn code(self) -> (r: i32)
        ensures
            r == self.spec_code(),
    {
        match self {
            AsynRequestState::Success => 0,
            AsynRequestState::Fail => 1,
        }
    }

    /// The state that the engine reports with `code`.
    pub fn from_code(code: i32) -> (r: Self)
        requires
            Self::spec_from_code(code) is Some,
        ensures
            Self::spec_from_code(code) == Some(r),
            r.spec_code() == code,
    {
        if code == 0 {
            AsynRequestState::Success
        } else {
            AsynRequestState::Fail
        }
    }
}

/// Each state has its own code: the code gives the state back.
pub proof fn lemma_asyn_request_state_code_round_trip(value: AsynRequestState)
    ensures
        AsynRequestState::spec_from_code(value.spec_code()) == Some(value),
{
}

/// The request type.
#[derive(Debug, Copy, Clone, Hash, PartialEq, Eq)]
pub enum RequestType {
    /// The request type is invalid.
    Invalidation,
    /// The request type is get.
    Get,
    /// The request type is post.
    Post,
    /// The request type is put.
    Put,
}

impl RequestType {
    /// The request method code used by the engine.
    pub open spec fn spec_code(self) -> i32 {
        match self {
            RequestType::Invalidation => 0,
            RequestType::Get => 1,
            RequestType::Post => 2,
            RequestType::Put => 3,
        }
    }

    /// The request type that has the code `code`, if any.
    pub open spec fn spec_from_code(code: i32) -> Option<Self> {
        if code == 0 {
            Some(RequestType::Invalidation)
        } else if code == 1 {
            Some(RequestType::Get)
        } else if code == 2 {
            Some(RequestType::Post)
        } else if code == 3 {
            Some(RequestType::Put)
        } else {
            None
        }
    }

    /// The request method code used by the engine.
    pub fn code(self) -> (r: i32)
        ensures
            r == self.spec_code(),
    {
        match self {
            RequestType::Invalidation => 0,
            RequestType::Get => 1,
            RequestType::Post => 2,
            RequestType::Put => 3,
        }
    }

    /// The request type that the engine reports with `code`.
    pub fn from_code(code: i32) -> (r: Self)
        requires
            Self::spec_from_code(code) is Some,
        ensures
            Self::spec_from_code(code) == Some(r),
            r.spec_code() == code,
    {
        if code == 0 {
            RequestType::Invalidation
        } else if code == 1 {
            RequestType::Get
        } else if code == 2 {
            RequestType::Post
        } else {
            RequestType::Put
        }
    }
}

/// Each request type has its own code: the code gives the type back.
pub proof fn lemma_request_type_code_round_trip(value: RequestType)
    ensures
        RequestType::spec_from_code(value.spec_code()) == Some(value),
{
}

/// The engine reports success as 0 and failure as 1, and no other state code.
pub proof fn lemma_asyn_request_state_engine_codes()
    ensures
        AsynRequestState::Success.spec_code() == 0i32,
        AsynRequestState::Fail.spec_code() == 1i32,
        forall|c: i32| #[trigger] AsynRequestState::spec_from_code(c) matches Some(v) ==> v.spec_code() == c,
{
}

/// The engine's request method codes: invalidation 0, GET 1, POST 2, PUT 3,
/// and no other code.
pub proof fn lemma_request_type_engine_codes()
    ensures
        RequestType::Invalidation.spec_code() == 0i32,
        RequestType::Get.spec_code() == 1i32,
        RequestType::Post.spec_code() == 2i32,
        RequestType::Put.spec_code() == 3i32,
        forall|c: i32| #[trigger] RequestType::spec_from_code(c) matches Some(v) ==> v.spec_code() == c,
{
}

} // verus!
