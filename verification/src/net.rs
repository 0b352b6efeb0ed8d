//! Where the server listens and how a client introduces itself to it.
use vstd::prelude::*;

verus! {

#[verifier::external_type_specification]
#[verifier::external_body]
pub struct ExRandomError(getrandom::Error);

/// The port that the server listens on; clients need to know it in advance.
pub const SERVER_PORT: u16 = 5000;

/// Port 0 lets the operating system pick a free port for a client, so that
/// several clients on one machine do not collide.
pub const CLIENT_PORT: u16 = 0;

/// The protocol identifier that client and server agree on.
pub const PROTOCOL_ID: u64 = 0;

/// Length in bytes of the netcode private key.
pub const PRIVATE_KEY_LEN: usize = 32;

/// An IPv4 address and a port.
#[derive(Clone, Copy, Debug)]
pub struct Endpoint {
    pub ip: [u8; 4],
    pub port: u16,
}

/// Whether the endpoint is the loopback address 127.0.0.1 with the port.
pub open spec fn is_loopback(addr: Endpoint, port: u16) -> bool {
    addr.ip@ == seq![127u8, 0u8, 0u8, 1u8] && addr.port == port
}

/// The address of the game server.
pub fn server_addr() -> (addr: Endpoint)
    ensures
        is_loopback(addr, SERVER_PORT),
{
    let addr = Endpoint { ip: [127u8, 0u8, 0u8, 1u8], port: SERVER_PORT };
    assert(addr.ip@ =~= seq![127u8, 0u8, 0u8, 1u8]);
    addr
}

/// The local address that a client binds to.
pub fn client_addr() -> (addr: Endpoint)
    ensures
        is_loopback(addr, CLIENT_PORT),
{
    let addr = Endpoint { ip: [127u8, 0u8, 0u8, 1u8], port: CLIENT_PORT };
    assert(addr.ip@ =~= seq![127u8, 0u8, 0u8, 1u8]);
    addr
}

/// The manual netcode authentication that a client presents to the server.
#[derive(Clone, Copy, Debug)]
pub struct ManualAuth {
    pub server_addr: Endpoint,
    pub client_id: u64,
    pub private_key: [u8; 32],
    pub protocol_id: u64,
}

/// Whether `auth` is the authentication of the client with the given
/// identifier: the server's address, the default (all-zero) private key and
/// the shared protocol id.
pub open spec fn is_manual_auth_of(auth: ManualAuth, client_id: u64) -> bool {
    &&& is_loopback(auth.server_addr, SERVER_PORT)
    &&& auth.client_id == client_id
    &&& auth.private_key@ == Seq::new(32, |_i: int| 0u8)
    &&& auth.protocol_id == PROTOCOL_ID
}

/// Why a client could not prepare its connection.
#[derive(Clone, Copy, Debug, PartialEq, Eq)]
pub enum ConnectError {
    /// The system's random number source failed to produce a client id; it
    /// carries the source's own error.
    RandomSource(getrandom::Error),
}

/// `getrandom::u64`: a random number from the system's preferred source, or
/// that source's error. Nothing is promised of which number comes back.
#[verifier::external_body]
fn system_random_u64() -> Result<u64, getrandom::Error> {
    getrandom::u64()
}

/// The authentication for the client with the given identifier.
pub fn manual_auth(client_id: u64) -> (auth: ManualAuth)
    ensures
        is_manual_auth_of(auth, client_id),
{
    let auth = ManualAuth {
        server_addr: server_addr(),
        client_id,
        private_key: [0u8; 32],
        protocol_id: PROTOCOL_ID,
    };
    assert(auth.private_key@ =~= Seq::new(32, |_i: int| 0u8));
    auth
}

/// The authentication for a new client connection, with a client id taken
/// from the system's random source: the authentication of that id, or
/// `RandomSource` with the source's error when the source fails.
pub fn connect_auth() -> (auth: Result<ManualAuth, ConnectError>)
    ensures
        auth matches Ok(a) ==> is_manual_auth_of(a, a.client_id),
        auth matches Err(e) ==> e is RandomSource,
{
    auth_from_random(system_random_u64())
}

/// The authentication that follows from what the random source gave: the
/// authentication of the drawn client id, or, when the source failed,
/// `RandomSource` carrying the source's error.
pub fn auth_from_random(drawn: Result<u64, getrandom::Error>) -> (auth: Result<ManualAuth, ConnectError>)
    ensures
        drawn is Ok <==> auth is Ok,
        drawn matches Ok(id) ==> auth matches Ok(a) && is_manual_auth_of(a, id),
        drawn matches Err(e) ==> auth == Err::<ManualAuth, ConnectError>(ConnectError::RandomSource(e)),
{
    match drawn {
        Ok(client_id) => Ok(manual_auth(client_id)),
        Err(e) => Err(ConnectError::RandomSource(e)),
    }
}

} // verus!
