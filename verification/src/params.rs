//! The parameters that the engine hands to the callbacks of a web view.

use vstd::prelude::*;

use crate::types::navigation::NavigationType;
use crate::types::request::AsynRequestState;
use crate::types::window::{RawWindowFeatures, WindowFeatures};

verus! {

/// Parameters in get cookie callback.
pub struct GetCookieParameters {
    /// The state of the request.
    pub state: AsynRequestState,
    /// The cookie.
    pub cookie: String,
}

impl GetCookieParameters {
    /// The parameters for the state code and the cookie text the engine reported.
    pub fn from_raw(state: i32, cookie: String) -> (r: Self)
        requires
            AsynRequestState::spec_from_code(state) is Some,
        ensures
            AsynRequestState::spec_from_code(state) == Some(r.state),
            r.cookie@ == cookie@,
    {
        GetCookieParameters { state: AsynRequestState::from_code(state), cookie }
    }
}

/// Parameters in url change callback.
pub struct UrlChangedParameters {
    /// The url.
    pub url: String,
    /// Whether can go back.
    pub can_go_back: bool,
    /// Whether can go forward.
    pub can_go_forward: bool,
}

impl UrlChangedParameters {
    /// The parameters for the url and the two C booleans the engine reported.
    pub fn from_raw(url: String, can_go_back: i32, can_go_forward: i32) -> (r: Self)
        ensures
            r.url@ == url@,
            r.can_go_back == (can_go_back != 0),
            r.can_go_forward == (can_go_forward != 0),
    {
        UrlChangedParameters {
            url,
            can_go_back: can_go_back != 0,
            can_go_forward: can_go_forward != 0,
        }
    }
}

/// Parameters in navigation callback.
pub struct NavigationParameters {
    /// The navigation type.
    pub navigation_type: NavigationType,
    /// The url.
    pub url: String,
}

impl NavigationParameters {
    /// The parameters for the navigation type code and the url the engine
    /// reported; a code no type has is read as `Other`.
    pub fn from_raw(navigation_type: i32, url: String) -> (r: Self)
        ensures
            r.navigation_type == NavigationType::spec_from_code_or_other(navigation_type),
            r.url@ == url@,
    {
        NavigationParameters {
            navigation_type: NavigationType::from_code_or_other(navigation_type),
            url,
        }
    }
}

/// Parameters in create view callback.
pub struct CreateViewParameters {
    /// The navigation type.
    pub navigation_type: NavigationType,
    /// The url.
    pub url: String,
    /// The window features.
    pub window_features: WindowFeatures,
}

impl CreateViewParameters {
    /// The parameters for the navigation type code, the url and the window features the
    /// engine reported; a code no type has is read as `Other`.
    pub fn from_raw(navigation_type: i32, url: String, features: &RawWindowFeatures) -> (r: Self)
        ensures
            r.navigation_type == NavigationType::spec_from_code_or_other(navigation_type),
            r.url@ == url@,
            r.window_features == WindowFeatures::spec_from_raw(*features),
    {
        CreateViewParameters {
            navigation_type: NavigationType::from_code_or_other(navigation_type),
            url,
            window_features: WindowFeatures::from_mb_window_features(features),
        }
    }
}

/// Parameters of a `window.prompt()` call.
pub struct PromptParams {
    /// The message shown to the user.
    pub message: String,
    /// The value the input starts with.
    pub default_value: String,
}

/// Parameters of a `window.mbQuery()` call.
pub struct JsQueryParameters {
    /// The custom message number given by the script.
    pub custom_message: i32,
    /// The request text given by the script.
    pub request: String,
}

/// The answer to a `window.mbQuery()` call.
pub struct JsQueryResult {
    /// The custom message number handed back to the script.
    pub custom_message: i32,
    /// The response text handed back to the script.
    pub response: String,
}

} // verus!
