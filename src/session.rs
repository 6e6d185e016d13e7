use vstd::prelude::*;

verus! {

/// The gateway client's live connection, held as an opaque handle.
#[verifier::external_type_specification]
#[verifier::external_body]
pub struct ExClient(ibapi::Client);

/// The gateway client's error, forwarded to callers as it came.
#[verifier::external_type_specification]
#[verifier::external_body]
pub struct ExError(ibapi::Error);

/// Where a session is opened: the gateway's address (for example
/// `127.0.0.1:7497`) and the client id that the session identifies itself by.
pub struct ConnectTarget {
    pub address: String,
    pub client_id: i32,
}

/// The target that `connect(url, client_id)` dials: both values as given, with
/// no parsing or checking of the address.
pub fn connect_target(url: &str, client_id: i32) -> (r: ConnectTarget)
    ensures
        r.address@ == url@,
        r.client_id == client_id,
{
    ConnectTarget { address: url.to_owned(), client_id }
}

/// An open session with the gateway. It owns exactly one connection, and every
/// operation of the session goes through it.
pub struct Trader {
    client: ibapi::Client,
}

impl Trader {
    /// The connection that this session routes its calls to.
    pub closed spec fn connection(&self) -> ibapi::Client {
        self.client
    }

    /// Turns the outcome of a connection attempt into a session.
    ///
    /// A connection becomes a session that holds that very connection. A
    /// failure is handed back as it came, and no session exists.
    pub fn establish(outcome: Result<ibapi::Client, ibapi::Error>) -> (r: Result<Trader, ibapi::Error>)
        ensures
            r is Ok <==> outcome is Ok,
            outcome is Ok ==> r->Ok_0.connection() == outcome->Ok_0,
            outcome is Err ==> r == Err::<Trader, ibapi::Error>(outcome->Err_0),
    {
        match outcome {
            Ok(client) => Ok(Trader { client }),
            Err(e) => Err(e),
        }
    }

    /// The connection, for operations that this session does not offer itself.
    pub fn client(&self) -> (r: &ibapi::Client)
        ensures
            *r == self.connection(),
    {
        &self.client
    }
}

} // verus!
