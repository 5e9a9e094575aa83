use vstd::prelude::*;
use vstd::string::StringSliceAdditionalSpecFns;

use crate::proxy::{string_bytes, CProxy, CProxyModel, CREDENTIAL_CAPACITY, HOSTNAME_CAPACITY};
use crate::util::{
    fill_fixed_buffer, fixed_buffer, lemma_fixed_buffer_round_trip, nul_free, read_c_buffer,
};

verus! {

/// The proxy type.
#[derive(Debug, Copy, Clone, Hash, PartialEq, Eq)]
pub enum ProxyType {
    /// Http proxy.
    Http,
    /// Https proxy.
    Https,
    /// Socks4 proxy.
    Socks4,
    /// Socks4A proxy.
    Socks4A,
    /// Socks5 proxy.
    Socks5,
    /// Socks5 hostname proxy.
    SocksHostname,
}

impl ProxyType {
    /// The code of the proxy type, its position in the declaration.
    pub open spec fn spec_code(self) -> i32 {
        match self {
            ProxyType::Http => 0,
            ProxyType::Https => 1,
            ProxyType::Socks4 => 2,
            ProxyType::Socks4A => 3,
            ProxyType::Socks5 => 4,
            ProxyType::SocksHostname => 5,
        }
    }

    /// The code of the proxy type.
    pub fn code(self) -> (r: i32)
        ensures
            r == self.spec_code(),
    {
        match self {
            ProxyType::Http => 0,
            ProxyType::Https => 1,
            ProxyType::Socks4 => 2,
            ProxyType::Socks4A => 3,
            ProxyType::Socks5 => 4,
            ProxyType::SocksHostname => 5,
        }
    }
}

/// The proxy information.
pub struct Proxy {
    /// The proxy type.
    pub type_: ProxyType,
    /// The proxy hostname. less than 100 characters.
    pub hostname: String,
    /// The proxy port.
    pub port: u16,
    /// The proxy username. less than 50 characters.
    pub username: String,
    /// The proxy password. less than 50 characters.
    pub password: String,
}

impl Proxy {
    /// The C record of the proxy: each string's bytes copied as they are into
    /// its buffer, cut at the buffer's size, then zeros.
    pub open spec fn c_record(self) -> CProxyModel {
        CProxyModel {
            type_: self.type_.spec_code(),
            hostname: fixed_buffer(string_bytes(self.hostname), HOSTNAME_CAPACITY as nat),
            port: self.port,
            username: fixed_buffer(string_bytes(self.username), CREDENTIAL_CAPACITY as nat),
            password: fixed_buffer(string_bytes(self.password), CREDENTIAL_CAPACITY as nat),
        }
    }

    /// Writes the proxy in the C layout of the engine.
    pub fn to_mb_proxy(&self) -> (r: CProxy)
        ensures
            r@ == self.c_record(),
            r@.wf(),
    {
        CProxy {
            type_: self.type_.code(),
            hostname: copy_to_char_array(self.hostname.as_str(), HOSTNAME_CAPACITY),
            port: self.port,
            username: copy_to_char_array(self.username.as_str(), CREDENTIAL_CAPACITY),
            password: copy_to_char_array(self.password.as_str(), CREDENTIAL_CAPACITY),
        }
    }
}

/// Copies the bytes of `src` into a zeroed buffer of `n` C characters, as many
/// as fit.
fn copy_to_char_array(src: &str, n: usize) -> (r: Vec<i8>)
    ensures
        r@ == fixed_buffer(src.spec_bytes(), n as nat),
{
    fill_fixed_buffer(src.as_bytes(), n)
}

/// A C reader finds in the record of a proxy its host name, user name and
/// password, each whenever it holds no NUL and is shorter than its buffer, as
/// the field documentation asks.
pub proof fn lemma_mb_proxy_read_back(proxy: Proxy)
    ensures
        proxy.c_record().wf(),
        proxy.c_record().type_ == proxy.type_.spec_code(),
        proxy.c_record().port == proxy.port,
        (nul_free(string_bytes(proxy.hostname)) && string_bytes(proxy.hostname).len()
            < HOSTNAME_CAPACITY) ==> read_c_buffer(proxy.c_record().hostname) == string_bytes(
            proxy.hostname,
        ),
        (nul_free(string_bytes(proxy.username)) && string_bytes(proxy.username).len()
            < CREDENTIAL_CAPACITY) ==> read_c_buffer(proxy.c_record().username) == string_bytes(
            proxy.username,
        ),
        (nul_free(string_bytes(proxy.password)) && string_bytes(proxy.password).len()
            < CREDENTIAL_CAPACITY) ==> read_c_buffer(proxy.c_record().password) == string_bytes(
            proxy.password,
        ),
{
    if nul_free(string_bytes(proxy.hostname)) && string_bytes(proxy.hostname).len()
        < HOSTNAME_CAPACITY {
        lemma_fixed_buffer_round_trip(string_bytes(proxy.hostname), HOSTNAME_CAPACITY as nat);
    }
    if nul_free(string_bytes(proxy.username)) && string_bytes(proxy.username).len()
        < CREDENTIAL_CAPACITY {
        lemma_fixed_buffer_round_trip(string_bytes(proxy.username), CREDENTIAL_CAPACITY as nat);
    }
    if nul_free(string_bytes(proxy.password)) && string_bytes(proxy.password).len()
        < CREDENTIAL_CAPACITY {
        lemma_fixed_buffer_round_trip(string_bytes(proxy.password), CREDENTIAL_CAPACITY as nat);
    }
}

/// The proxy kind written into the C record: HTTP 0, HTTPS 1, SOCKS4 2,
/// SOCKS4A 3, SOCKS5 4, SOCKS5 with host names 5.
pub proof fn lemma_proxy_type_engine_codes()
    ensures
        ProxyType::Http.spec_code() == 0i32,
        ProxyType::Https.spec_code() == 1i32,
        ProxyType::Socks4.spec_code() == 2i32,
        ProxyType::Socks4A.spec_code() == 3i32,
        ProxyType::Socks5.spec_code() == 4i32,
        ProxyType::SocksHostname.spec_code() == 5i32,
{
}

} // verus!
