//! What the engine is answered when it calls back into a web view.
//!
//! The engine calls a C function for each event; that function runs the
//! callback the user registered, catching a panic, and turns what came of it
//! into the integer (or string) the engine expects. The functions here are that
//! last step.

use vstd::prelude::*;

use crate::params::JsQueryResult;

verus! {

/// How the call of a user callback ended.
pub enum CallbackOutcome<T> {
    /// The web view the callback was registered on was already dropped, so the
    /// callback did not run.
    Detached,
    /// The callback panicked and the panic was caught.
    Panicked,
    /// The callback returned this value.
    Returned(T),
}

/// The C boolean for `b`.
pub open spec fn c_bool(b: bool) -> i32 {
    if b {
        1
    } else {
        0
    }
}

/// The C boolean of `true` is 1 and that of `false` is 0.
pub proof fn lemma_c_bool_values()
    ensures
        c_bool(true) == 1,
        c_bool(false) == 0,
{
}

/// Reply to the close, destroy and navigation events: the engine goes on (1)
/// unless the callback returned `false`.
pub fn continue_reply(outcome: CallbackOutcome<bool>) -> (r: i32)
    ensures
        r == (match outcome {
            CallbackOutcome::Returned(b) => c_bool(b),
            _ => 1,
        }),
{
    match outcome {
        CallbackOutcome::Returned(b) => if b {
            1
        } else {
            0
        },
        _ => 1,
    }
}

/// Reply to `window.confirm()`: confirmed (1) only when the callback returned
/// `true`.
pub fn confirm_box_reply(outcome: CallbackOutcome<bool>) -> (r: i32)
    ensures
        r == (if outcome == CallbackOutcome::Returned(true) {
            1i32
        } else {
            0i32
        }),
{
    match outcome {
        CallbackOutcome::Returned(true) => 1,
        _ => 0,
    }
}

/// Reply to a download: go on (1) when the web view is gone or the callback
/// returned `true`; stop (0) when it returned `false` or panicked.
pub fn download_reply(outcome: CallbackOutcome<bool>) -> (r: i32)
    ensures
        r == (match outcome {
            CallbackOutcome::Detached => 1,
            CallbackOutcome::Panicked => 0,
            CallbackOutcome::Returned(b) => c_bool(b),
        }),
{
    match outcome {
        CallbackOutcome::Detached => 1,
        CallbackOutcome::Panicked => 0,
        CallbackOutcome::Returned(b) => if b {
            1
        } else {
            0
        },
    }
}

/// Reply to the start of a request: cancel it (1) when the callback returned
/// `true` or panicked; load it (0) when it returned `false` or the web view is
/// gone.
pub fn load_url_begin_reply(outcome: CallbackOutcome<bool>) -> (r: i32)
    ensures
        r == (match outcome {
            CallbackOutcome::Detached => 0,
            CallbackOutcome::Panicked => 1,
            CallbackOutcome::Returned(b) => c_bool(b),
        }),
{
    match outcome {
        CallbackOutcome::Detached => 0,
        CallbackOutcome::Panicked => 1,
        CallbackOutcome::Returned(b) => if b {
            1
        } else {
            0
        },
    }
}

/// What is written back for a `window.prompt()` call: the flag stored through
/// the engine's `reject` pointer, and the text handed back (none is a null
/// string).
pub struct PromptReply {
    /// The value stored through the `reject` pointer.
    pub reject: i32,
    /// The text handed back, if any.
    pub text: Option<String>,
}

/// Reply to `window.prompt()`: the flag is 1 and the text is handed back when
/// the callback returned some text; otherwise the flag is 0 and no text is.
pub fn prompt_box_reply(outcome: CallbackOutcome<Option<String>>) -> (r: PromptReply)
    ensures
        match outcome {
            CallbackOutcome::Returned(Some(text)) => r.reject == 1 && r.text == Some(text),
            _ => r.reject == 0 && r.text is None,
        },
{
    match outcome {
        CallbackOutcome::Returned(Some(text)) => PromptReply { reject: 1, text: Some(text) },
        _ => PromptReply { reject: 0, text: None },
    }
}

/// Reply to a request for a new web view: the id of the child the callback
/// created (once it is registered as a child), 0 when it created none or
/// panicked, and 1 when the web view is gone.
pub fn create_view_reply(outcome: CallbackOutcome<Option<isize>>) -> (r: isize)
    ensures
        r == (match outcome {
            CallbackOutcome::Detached => 1,
            CallbackOutcome::Returned(Some(child)) => child,
            _ => 0,
        }),
{
    match outcome {
        CallbackOutcome::Detached => 1,
        CallbackOutcome::Returned(Some(child)) => child,
        _ => 0,
    }
}

/// The answer sent back for a `window.mbQuery()` call: the callback's result
/// when it returned one; nothing is sent when it panicked or the web view is
/// gone.
pub fn query_reply(outcome: CallbackOutcome<JsQueryResult>) -> (r: Option<JsQueryResult>)
    ensures
        match outcome {
            CallbackOutcome::Returned(result) => r == Some(result),
            _ => r is None,
        },
{
    match outcome {
        CallbackOutcome::Returned(result) => Some(result),
        _ => None,
    }
}

/// The cookie handed to an asynchronous cookie callback: the text when the
/// request state is 0 (success), none otherwise.
pub fn cookie_result(state: i32, cookie: String) -> (r: Option<String>)
    ensures
        state == 0 ==> r == Some(cookie),
        state != 0 ==> r is None,
{
    if state == 0 {
        Some(cookie)
    } else {
        None
    }
}

/// Reply of a callback kept in the per-view table to the close, destroy,
/// navigation, download and confirm events: what it returned, or 1 (go on) when
/// none is registered or it panicked.
pub fn registered_continue_reply(returned: Option<bool>) -> (r: i32)
    ensures
        r == (match returned {
            Some(b) => c_bool(b),
            None => 1,
        }),
{
    match returned {
        Some(b) => if b {
            1
        } else {
            0
        },
        None => 1,
    }
}

/// Reply of a callback kept in the per-view table to the start of a request:
/// what it returned, or 0 (load) when none is registered or it panicked.
pub fn registered_load_url_begin_reply(returned: Option<bool>) -> (r: i32)
    ensures
        r == (match returned {
            Some(b) => c_bool(b),
            None => 0,
        }),
{
    match returned {
        Some(b) => if b {
            1
        } else {
            0
        },
        None => 0,
    }
}

/// Reply of a callback kept in the per-view table to `window.prompt()`: none
/// (the `reject` flag is left alone and a null string is returned) when no
/// callback is registered or it panicked; otherwise as `prompt_box_reply`.
pub fn registered_prompt_reply(returned: Option<Option<String>>) -> (r: Option<PromptReply>)
    ensures
        match returned {
            None => r is None,
            Some(Some(text)) => r matches Some(reply) && reply.reject == 1 && reply.text == Some(
                text,
            ),
            Some(None) => r matches Some(reply) && reply.reject == 0 && reply.text is None,
        },
{
    match returned {
        None => None,
        Some(Some(text)) => Some(PromptReply { reject: 1, text: Some(text) }),
        Some(None) => Some(PromptReply { reject: 0, text: None }),
    }
}

/// Reply of a callback kept in the per-view table to a request for a new web
/// view: the id of the window it created, or 0 when none is registered or it
/// created none.
pub fn registered_create_view_reply(child: Option<isize>) -> (r: isize)
    ensures
        r == (match child {
            Some(id) => id,
            None => 0,
        }),
{
    match child {
        Some(id) => id,
        None => 0,
    }
}

/// Reply of a navigation or window closing handler that answers the engine
/// with a boolean: what the callback returned, `false` when it panicked.
pub fn handler_reply(returned: Option<bool>) -> (r: bool)
    ensures
        r == (returned == Some(true)),
{
    match returned {
        Some(b) => b,
        None => false,
    }
}

} // verus!
