//! The kinds of resources and request bodies the engine reports.

use vstd::prelude::*;

verus! {

/// The kind of resource a request loads (`mbResourceType`).
#[derive(Debug, Copy, Clone, Hash, PartialEq, Eq)]
pub enum ResourceType {
    MainFrame,
    SubFrame,
    Stylesheet,
    Script,
    Image,
    FontResource,
    SubResource,
    Object,
    Media,
    Worker,
    SharedWorker,
    Prefetch,
    Favicon,
    Xhr,
    Ping,
    ServiceWorker,
    LastType,
}

impl ResourceType {
    /// The resource type code used by the engine.
    pub open spec fn spec_code(self) -> i32 {
        match self {
            ResourceType::MainFrame => 0,
            ResourceType::SubFrame => 1,
            ResourceType::Stylesheet => 2,
            ResourceType::Script => 3,
            ResourceType::Image => 4,
            ResourceType::FontResource => 5,
            ResourceType::SubResource => 6,
            ResourceType::Object => 7,
            ResourceType::Media => 8,
            ResourceType::Worker => 9,
            ResourceType::SharedWorker => 10,
            ResourceType::Prefetch => 11,
            ResourceType::Favicon => 12,
            ResourceType::Xhr => 13,
            ResourceType::Ping => 14,
            ResourceType::ServiceWorker => 15,
            ResourceType::LastType => 16,
        }
    }

    /// The resource type that has the code `code`, if any.
    pub open spec fn spec_from_code(code: i32) -> Option<Self> {
        if code == 0 {
            Some(ResourceType::MainFrame)
        } else if code == 1 {
            Some(ResourceType::SubFrame)
        } else if code == 2 {
            Some(ResourceType::Stylesheet)
        } else if code == 3 {
            Some(ResourceType::Script)
        } else if code == 4 {
            Some(ResourceType::Image)
        } else if code == 5 {
            Some(ResourceType::FontResource)
        } else if code == 6 {
            Some(ResourceType::SubResource)
        } else if code == 7 {
            Some(ResourceType::Object)
        } else if code == 8 {
            Some(ResourceType::Media)
        } else if code == 9 {
            Some(ResourceType::Worker)
        } else if code == 10 {
            Some(ResourceType::SharedWorker)
        } else if code == 11 {
            Some(ResourceType::Prefetch)
        } else if code == 12 {
            Some(ResourceType::Favicon)
        } else if code == 13 {
            Some(ResourceType::Xhr)
        } else if code == 14 {
            Some(ResourceType::Ping)
        } else if code == 15 {
            Some(ResourceType::ServiceWorker)
        } else if code == 16 {
            Some(ResourceType::LastType)
        } else {
            None
        }
    }

    /// The resource type code used by the engine.
    pub fn code(self) -> (r: i32)
        ensures
            r == self.spec_code(),
    {
        match self {
            ResourceType::MainFrame => 0,
            ResourceType::SubFrame => 1,
            ResourceType::Stylesheet => 2,
            ResourceType::Script => 3,
            ResourceType::Image => 4,
            ResourceType::FontResource => 5,
            ResourceType::SubResource => 6,
            ResourceType::Object => 7,
            ResourceType::Media => 8,
            ResourceType::Worker => 9,
            ResourceType::SharedWorker => 10,
            ResourceType::Prefetch => 11,
            ResourceType::Favicon => 12,
            ResourceType::Xhr => 13,
            ResourceType::Ping => 14,
            ResourceType::ServiceWorker => 15,
            ResourceType::LastType => 16,
        }
    }

    /// The resource type the engine reports with `code`; the engine knows no other codes.
    pub fn from_code(code: i32) -> (r: Self)
        requires
            Self::spec_from_code(code) is Some,
        ensures
            Self::spec_from_code(code) == Some(r),
            r.spec_code() == code,
    {
        if code == 0 {
            ResourceType::MainFrame
        } else if code == 1 {
            ResourceType::SubFrame
        } else if code == 2 {
            ResourceType::Stylesheet
        } else if code == 3 {
            ResourceType::Script
        } else if code == 4 {
            ResourceType::Image
        } else if code == 5 {
            ResourceType::FontResource
        } else if code == 6 {
            ResourceType::SubResource
        } else if code == 7 {
            ResourceType::Object
        } else if code == 8 {
            ResourceType::Media
        } else if code == 9 {
            ResourceType::Worker
        } else if code == 10 {
            ResourceType::SharedWorker
        } else if code == 11 {
            ResourceType::Prefetch
        } else if code == 12 {
            ResourceType::Favicon
        } else if code == 13 {
            ResourceType::Xhr
        } else if code == 14 {
            ResourceType::Ping
        } else if code == 15 {
            ResourceType::ServiceWorker
        } else {
            ResourceType::LastType
        }
    }
}

/// Each resource type has its own code: the code gives the type back.
pub proof fn lemma_resource_type_code_round_trip(value: ResourceType)
    ensures
        ResourceType::spec_from_code(value.spec_code()) == Some(value),
{
}

/// The kind of an element of a request body (`mbHttBodyElementType`).
#[derive(Debug, Copy, Clone, Hash, PartialEq, Eq)]
pub enum HttpBodyElementType {
    /// The element holds data.
    Data,
    /// The element names a file.
    File,
}

impl HttpBodyElementType {
    /// The element type code used by the engine.
    pub open spec fn spec_code(self) -> i32 {
        match self {
            HttpBodyElementType::Data => 0,
            HttpBodyElementType::File => 1,
        }
    }

    /// The element type that has the code `code`, if any.
    pub open spec fn spec_from_code(code: i32) -> Option<Self> {
        if code == 0 {
            Some(HttpBodyElementType::Data)
        } else if code == 1 {
            Some(HttpBodyElementType::File)
        } else {
            None
        }
    }

    /// The element type code used by the engine.
    pub fn code(self) -> (r: i32)
        ensures
            r == self.spec_code(),
    {
        match self {
            HttpBodyElementType::Data => 0,
            HttpBodyElementType::File => 1,
        }
    }

    /// The element type the engine reports with `code`; the engine knows no other codes.
    pub fn from_code(code: i32) -> (r: Self)
        requires
            Self::spec_from_code(code) is Some,
        ensures
            Self::spec_from_code(code) == Some(r),
            r.spec_code() == code,
    {
        if code == 0 {
            HttpBodyElementType::Data
        } else {
            HttpBodyElementType::File
        }
    }
}

/// Each element type has its own code: the code gives the type back.
pub proof fn lemma_http_body_element_type_code_round_trip(value: HttpBodyElementType)
    ensures
        HttpBodyElementType::spec_from_code(value.spec_code()) == Some(value),
{
}

/// The engine's resource type codes, from main frame 0 to the last type 16,
/// and no other code.
pub proof fn lemma_resource_type_engine_codes()
    ensures
        ResourceType::MainFrame.spec_code() == 0i32,
        ResourceType::SubFrame.spec_code() == 1i32,
        ResourceType::Stylesheet.spec_code() == 2i32,
        ResourceType::Script.spec_code() == 3i32,
        ResourceType::Image.spec_code() == 4i32,
        ResourceType::FontResource.spec_code() == 5i32,
        ResourceType::SubResource.spec_code() == 6i32,
        ResourceType::Object.spec_code() == 7i32,
        ResourceType::Media.spec_code() == 8i32,
        ResourceType::Worker.spec_code() == 9i32,
        ResourceType::SharedWorker.spec_code() == 10i32,
        ResourceType::Prefetch.spec_code() == 11i32,
        ResourceType::Favicon.spec_code() == 12i32,
        ResourceType::Xhr.spec_code() == 13i32,
        ResourceType::Ping.spec_code() == 14i32,
        ResourceType::ServiceWorker.spec_code() == 15i32,
        ResourceType::LastType.spec_code() == 16i32,
        forall|c: i32| #[trigger] ResourceType::spec_from_code(c) matches Some(v) ==> v.spec_code() == c,
{
}

/// The engine's body element codes: data 0, file 1, and no other code.
pub proof fn lemma_http_body_element_type_engine_codes()
    ensures
        HttpBodyElementType::Data.spec_code() == 0i32,
        HttpBodyElementType::File.spec_code() == 1i32,
        forall|c: i32| #[trigger] HttpBodyElementType::spec_from_code(c) matches Some(v) ==> v.spec_code() == c,
{
}

} // verus!
