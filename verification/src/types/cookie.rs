use vstd::prelude::*;

verus! {

/// The cookie command.
#[derive(Debug, Copy, Clone, Hash, PartialEq, Eq)]
pub enum CookieCommand {
    /// Clear all cookies. Same as curl command: CURLOPT_COOKIELIST, "ALL".
    ClearAllCookies,
    /// Clear session cookies. Same as curl command: CURLOPT_COOKIELIST, "SESS"
    ClearSessionCookies,
    /// Flush cookies to file. Same as curl command: CURLOPT_COOKIELIST, "FLUSH".
    FlushCookiesToFile,
    /// Reload cookies from file. Same as curl command: CURLOPT_COOKIELIST, "RELOAD".
    ReloadCookiesFromFile,
}

impl CookieCommand {
    /// The cookie command code handed to the engine.
    pub open spec fn spec_code(self) -> i32 {
        match self {
            CookieCommand::ClearAllCookies => 0,
            CookieCommand::ClearSessionCookies => 1,
            CookieCommand::FlushCookiesToFile => 2,
            CookieCommand::ReloadCookiesFromFile => 3,
        }
    }

    /// The cookie command code handed to the engine.
    pub fn code(self) -> (r: i32)
        ensures
            r == self.spec_code(),
    {
        match self {
            CookieCommand::ClearAllCookies => 0,
            CookieCommand::ClearSessionCookies => 1,
            CookieCommand::FlushCookiesToFile => 2,
            CookieCommand::ReloadCookiesFromFile => 3,
        }
    }
}

/// The command code handed to the engine: clear all 0, clear session 1, flush
/// to file 2, reload from file 3.
pub proof fn lemma_cookie_command_engine_codes()
    ensures
        CookieCommand::ClearAllCookies.spec_code() == 0i32,
        CookieCommand::ClearSessionCookies.spec_code() == 1i32,
        CookieCommand::FlushCookiesToFile.spec_code() == 2i32,
        CookieCommand::ReloadCookiesFromFile.spec_code() == 3i32,
{
}

} // verus!
