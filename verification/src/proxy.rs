use vstd::prelude::*;
use vstd::string::StringSliceAdditionalSpecFns;
use vstd::utf8::encode_utf8;

use crate::util::{
    fill_fixed_buffer, fixed_buffer, lemma_fixed_buffer_round_trip, lemma_until_nul_of_nul_free,
    nul_free, read_c_buffer, safe_c_bytes, until_nul,
};

verus! {

/// Number of C characters in the host name buffer of a [`CProxy`].
pub const HOSTNAME_CAPACITY: usize = 100;

/// Number of C characters in the user name and in the password buffer of a [`CProxy`].
pub const CREDENTIAL_CAPACITY: usize = 50;

/// Engine code of "no proxy".
pub const PROXY_CODE_NONE: i32 = 0;
/// Engine code of an HTTP CONNECT proxy.
pub const PROXY_CODE_HTTP: i32 = 1;
/// Engine code of a SOCKSv4 proxy.
pub const PROXY_CODE_SOCKS4: i32 = 2;
/// Engine code of a SOCKSv4A proxy.
pub const PROXY_CODE_SOCKS4A: i32 = 3;
/// Engine code of a SOCKSv5 proxy.
pub const PROXY_CODE_SOCKS5: i32 = 4;
/// Engine code of a SOCKSv5 proxy that resolves host names itself.
pub const PROXY_CODE_SOCKS5_HOSTNAME: i32 = 5;

/// The UTF-8 bytes of a string.
pub open spec fn string_bytes(s: String) -> Seq<u8> {
    encode_utf8(s@)
}

/// The UTF-8 bytes of an optional string; none when it is absent.
pub open spec fn optional_bytes(s: Option<String>) -> Seq<u8> {
    match s {
        Some(s) => string_bytes(s),
        None => Seq::empty(),
    }
}

/// A string written into a fixed C buffer of `n` characters: its bytes before
/// any NUL, cut at `n`, then zeros.
pub open spec fn c_field(bytes: Seq<u8>, n: nat) -> Seq<i8> {
    fixed_buffer(until_nul(bytes), n)
}

/// The proxy settings in the C layout that the engine reads.
pub struct CProxy {
    /// The proxy kind, as an engine code.
    pub type_: i32,
    /// The host name, a C string in a buffer of [`HOSTNAME_CAPACITY`] characters.
    pub hostname: Vec<i8>,
    /// The port.
    pub port: u16,
    /// The user name, a C string in a buffer of [`CREDENTIAL_CAPACITY`] characters.
    pub username: Vec<i8>,
    /// The password, a C string in a buffer of [`CREDENTIAL_CAPACITY`] characters.
    pub password: Vec<i8>,
}

/// The content of a [`CProxy`].
pub struct CProxyModel {
    pub type_: i32,
    pub hostname: Seq<i8>,
    pub port: u16,
    pub username: Seq<i8>,
    pub password: Seq<i8>,
}

impl View for CProxy {
    type V = CProxyModel;

    open spec fn view(&self) -> CProxyModel {
        CProxyModel {
            type_: self.type_,
            hostname: self.hostname@,
            port: self.port,
            username: self.username@,
            password: self.password@,
        }
    }
}

impl CProxyModel {
    /// The buffers have the sizes that the C layout fixes.
    pub open spec fn wf(self) -> bool {
        &&& self.hostname.len() == HOSTNAME_CAPACITY
        &&& self.username.len() == CREDENTIAL_CAPACITY
        &&& self.password.len() == CREDENTIAL_CAPACITY
    }
}

/// Proxy Endpoint
#[derive(Debug, Clone)]
pub struct ProxyEndpoint {
    /// Proxy server host (e.g. 192.168.0.100, localhost, example.com, etc.)
    pub host: String,
    /// Proxy server port (e.g. 1080, 3128, etc.)
    pub port: u16,
    /// Proxy server username
    pub username: Option<String>,
    /// Proxy server password
    pub password: Option<String>,
}

/// Proxy Config. Support HTTP, SOCKS4, SOCKS4A, SOCKS5, SOCKS5HOSTNAME
#[derive(Debug, Clone)]
pub enum ProxyConfig {
    /// Connect to no proxy server
    NoProxy,
    /// Connect to proxy server via HTTP CONNECT
    Http(ProxyEndpoint),
    /// Connect to proxy server via SOCKSv4
    Socks4(ProxyEndpoint),
    /// Connect to proxy server via SOCKSv4A
    Socks4A(ProxyEndpoint),
    /// Connect to proxy server via SOCKSv5
    Socks5(ProxyEndpoint),
    /// Connect to proxy server via SOCKSv5 Hostname
    Socks5Hostname(ProxyEndpoint),
}

/// The C record of an endpoint reached with the proxy kind `code`.
pub open spec fn endpoint_record(code: i32, e: ProxyEndpoint) -> CProxyModel {
    CProxyModel {
        type_: code,
        hostname: c_field(string_bytes(e.host), HOSTNAME_CAPACITY as nat),
        port: e.port,
        username: c_field(optional_bytes(e.username), CREDENTIAL_CAPACITY as nat),
        password: c_field(optional_bytes(e.password), CREDENTIAL_CAPACITY as nat),
    }
}

impl ProxyConfig {
    /// The endpoint of the configuration; none for a direct connection.
    pub open spec fn endpoint(self) -> Option<ProxyEndpoint> {
        match self {
            ProxyConfig::NoProxy => None,
            ProxyConfig::Http(e) => Some(e),
            ProxyConfig::Socks4(e) => Some(e),
            ProxyConfig::Socks4A(e) => Some(e),
            ProxyConfig::Socks5(e) => Some(e),
            ProxyConfig::Socks5Hostname(e) => Some(e),
        }
    }

    /// The engine code of the proxy kind.
    pub open spec fn code(self) -> i32 {
        match self {
            ProxyConfig::NoProxy => PROXY_CODE_NONE,
            ProxyConfig::Http(_) => PROXY_CODE_HTTP,
            ProxyConfig::Socks4(_) => PROXY_CODE_SOCKS4,
            ProxyConfig::Socks4A(_) => PROXY_CODE_SOCKS4A,
            ProxyConfig::Socks5(_) => PROXY_CODE_SOCKS5,
            ProxyConfig::Socks5Hostname(_) => PROXY_CODE_SOCKS5_HOSTNAME,
        }
    }

    /// The C record that the configuration is written as.
    pub open spec fn c_record(self) -> CProxyModel {
        match self.endpoint() {
            None => CProxyModel {
                type_: PROXY_CODE_NONE,
                hostname: Seq::new(HOSTNAME_CAPACITY as nat, |i: int| 0i8),
                port: 0,
                username: Seq::new(CREDENTIAL_CAPACITY as nat, |i: int| 0i8),
                password: Seq::new(CREDENTIAL_CAPACITY as nat, |i: int| 0i8),
            },
            Some(e) => endpoint_record(self.code(), e),
        }
    }

    /// Writes the configuration in the C layout of the engine.
    pub fn to_wke_proxy(&self) -> (r: CProxy)
        ensures
            r@ == self.c_record(),
            r@.wf(),
    {
        let r = match self {
            ProxyConfig::NoProxy => {
                let r = CProxy {
                    type_: PROXY_CODE_NONE,
                    hostname: fill_fixed_buffer(&[], HOSTNAME_CAPACITY),
                    port: 0,
                    username: fill_fixed_buffer(&[], CREDENTIAL_CAPACITY),
                    password: fill_fixed_buffer(&[], CREDENTIAL_CAPACITY),
                };
                assert(r.hostname@ =~= Seq::new(HOSTNAME_CAPACITY as nat, |i: int| 0i8));
                assert(r.username@ =~= Seq::new(CREDENTIAL_CAPACITY as nat, |i: int| 0i8));
                assert(r.password@ =~= Seq::new(CREDENTIAL_CAPACITY as nat, |i: int| 0i8));
                r
            },
            ProxyConfig::Http(e) => wkeproxy_new(PROXY_CODE_HTTP, e),
            ProxyConfig::Socks4(e) => wkeproxy_new(PROXY_CODE_SOCKS4, e),
            ProxyConfig::Socks4A(e) => wkeproxy_new(PROXY_CODE_SOCKS4A, e),
            ProxyConfig::Socks5(e) => wkeproxy_new(PROXY_CODE_SOCKS5, e),
            ProxyConfig::Socks5Hostname(e) => wkeproxy_new(PROXY_CODE_SOCKS5_HOSTNAME, e),
        };
        assert(r@ =~= self.c_record());
        r
    }
}

/// Writes `s` as a C string into a buffer of `n` characters: its bytes before
/// the first NUL and a terminating zero, cut at `n`, then zeros.
pub fn string_to_slice(s: &str, n: usize) -> (r: Vec<i8>)
    ensures
        r@ == c_field(s.spec_bytes(), n as nat),
{
    let bytes = safe_c_bytes(s);
    fill_fixed_buffer(bytes.as_slice(), n)
}

/// Writes an optional string as a C string; an absent one is empty.
fn optional_to_slice(s: &Option<String>, n: usize) -> (r: Vec<i8>)
    ensures
        r@ == c_field(optional_bytes(*s), n as nat),
{
    match s {
        Some(s) => string_to_slice(s.as_str(), n),
        None => {
            let r = fill_fixed_buffer(&[], n);
            proof {
                assert(until_nul(Seq::<u8>::empty()) == Seq::<u8>::empty());
            }
            r
        },
    }
}

/// The C record of an endpoint reached with the proxy kind `type_`.
pub fn wkeproxy_new(type_: i32, endpoint: &ProxyEndpoint) -> (r: CProxy)
    ensures
        r@ == endpoint_record(type_, *endpoint),
        r@.wf(),
{
    CProxy {
        type_,
        hostname: string_to_slice(endpoint.host.as_str(), HOSTNAME_CAPACITY),
        port: endpoint.port,
        username: optional_to_slice(&endpoint.username, CREDENTIAL_CAPACITY),
        password: optional_to_slice(&endpoint.password, CREDENTIAL_CAPACITY),
    }
}

/// A string with no NUL that fits its buffer with room for the terminating
/// zero is what a C reader finds in that buffer afterwards.
pub proof fn lemma_c_field_read_back(bytes: Seq<u8>, n: nat)
    requires
        nul_free(bytes),
        bytes.len() < n,
    ensures
        read_c_buffer(c_field(bytes, n)) == bytes,
{
    lemma_until_nul_of_nul_free(bytes);
    lemma_fixed_buffer_round_trip(bytes, n);
}

/// The C record of a configuration carries its proxy kind, and, for a proxy
/// server, its port; a C reader finds in it the host, the user name and the
/// password of the endpoint (an absent one read as empty) whenever each holds
/// no NUL and is shorter than its buffer. The record of a direct connection
/// reads as empty everywhere.
pub proof fn lemma_proxy_record_read_back(config: ProxyConfig)
    ensures
        config.c_record().wf(),
        config.c_record().type_ == config.code(),
        config.endpoint() matches Some(e) ==> {
            &&& config.c_record().port == e.port
            &&& (nul_free(string_bytes(e.host)) && string_bytes(e.host).len() < HOSTNAME_CAPACITY)
                ==> read_c_buffer(config.c_record().hostname) == string_bytes(e.host)
            &&& (nul_free(optional_bytes(e.username)) && optional_bytes(e.username).len()
                < CREDENTIAL_CAPACITY) ==> read_c_buffer(config.c_record().username)
                == optional_bytes(e.username)
            &&& (nul_free(optional_bytes(e.password)) && optional_bytes(e.password).len()
                < CREDENTIAL_CAPACITY) ==> read_c_buffer(config.c_record().password)
                == optional_bytes(e.password)
        },
        config.endpoint() is None ==> {
            &&& read_c_buffer(config.c_record().hostname) == Seq::<u8>::empty()
            &&& read_c_buffer(config.c_record().username) == Seq::<u8>::empty()
            &&& read_c_buffer(config.c_record().password) == Seq::<u8>::empty()
        },
{
    match config.endpoint() {
        Some(e) => {
            if nul_free(string_bytes(e.host)) && string_bytes(e.host).len() < HOSTNAME_CAPACITY {
                lemma_c_field_read_back(string_bytes(e.host), HOSTNAME_CAPACITY as nat);
            }
            if nul_free(optional_bytes(e.username)) && optional_bytes(e.username).len()
                < CREDENTIAL_CAPACITY {
                lemma_c_field_read_back(optional_bytes(e.username), CREDENTIAL_CAPACITY as nat);
            }
            if nul_free(optional_bytes(e.password)) && optional_bytes(e.password).len()
                < CREDENTIAL_CAPACITY {
                lemma_c_field_read_back(optional_bytes(e.password), CREDENTIAL_CAPACITY as nat);
            }
        },
        None => {
            let empty = Seq::<u8>::empty();
            lemma_c_field_read_back(empty, HOSTNAME_CAPACITY as nat);
            lemma_c_field_read_back(empty, CREDENTIAL_CAPACITY as nat);
            assert(until_nul(empty) == empty);
            assert(config.c_record().hostname =~= c_field(empty, HOSTNAME_CAPACITY as nat));
            assert(config.c_record().username =~= c_field(empty, CREDENTIAL_CAPACITY as nat));
            assert(config.c_record().password =~= c_field(empty, CREDENTIAL_CAPACITY as nat));
        },
    }
}

/// The engine's proxy kinds (none 0, HTTP 1, SOCKS4 2, SOCKS4A 3, SOCKS5 4,
/// SOCKS5 with host names 5) and the buffer sizes of its proxy record (100
/// characters for the host, 50 for the user name and for the password).
pub proof fn lemma_proxy_engine_constants(config: ProxyConfig)
    ensures
        PROXY_CODE_NONE == 0,
        PROXY_CODE_HTTP == 1,
        PROXY_CODE_SOCKS4 == 2,
        PROXY_CODE_SOCKS4A == 3,
        PROXY_CODE_SOCKS5 == 4,
        PROXY_CODE_SOCKS5_HOSTNAME == 5,
        HOSTNAME_CAPACITY == 100,
        CREDENTIAL_CAPACITY == 50,
        config is NoProxy ==> config.code() == 0,
        config is Http ==> config.code() == 1,
        config is Socks4 ==> config.code() == 2,
        config is Socks4A ==> config.code() == 3,
        config is Socks5 ==> config.code() == 4,
        config is Socks5Hostname ==> config.code() == 5,
        config.endpoint() is None <==> config is NoProxy,
        config matches ProxyConfig::Http(e) ==> config.endpoint() == Some(e),
        config matches ProxyConfig::Socks4(e) ==> config.endpoint() == Some(e),
        config matches ProxyConfig::Socks4A(e) ==> config.endpoint() == Some(e),
        config matches ProxyConfig::Socks5(e) ==> config.endpoint() == Some(e),
        config matches ProxyConfig::Socks5Hostname(e) ==> config.endpoint() == Some(e),
        config.c_record().hostname.len() == 100,
        config.c_record().username.len() == 50,
        config.c_record().password.len() == 50,
{
}

} // verus!
