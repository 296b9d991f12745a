use vstd::prelude::*;
use crate::context::{AccountId, Context};

verus! {

/// Why the upgrade proxy rejected a call.
#[derive(Clone, Copy, Debug, PartialEq, Eq, Structural)]
pub enum ProxyError {
    /// No admin is recorded.
    AdminNotSet,
    /// The admin did not authorize the upgrade.
    NotAuthorized,
    /// A migration is running; calls are not forwarded.
    Paused,
    /// No implementation is recorded.
    ImplementationNotSet,
}

/// Storage of the upgrade proxy: its admin, whether a migration is running, the
/// implementation calls are forwarded to, and every upgrade made, as
/// (ledger time, new implementation), oldest first.
pub struct StellAIverseProxy {
    pub admin: Option<AccountId>,
    pub paused: bool,
    pub implementation: Option<AccountId>,
    pub history: Vec<(u64, AccountId)>,
}

impl StellAIverseProxy {
    /// A proxy as deployed: `admin` and `implementation` as given, not paused,
    /// no upgrade made yet.
    pub fn new(admin: Option<AccountId>, implementation: Option<AccountId>) -> (p: StellAIverseProxy)
        ensures
            p.admin == admin,
            p.implementation == implementation,
            !p.paused,
            p.history@ == Seq::<(u64, AccountId)>::empty(),
    {
        StellAIverseProxy { admin, paused: false, implementation, history: Vec::new() }
    }

    /// The admin points the proxy at `new_implementation`: calls are paused, the
    /// upgrade is recorded with the ledger time and the implementation is
    /// replaced. The result is the contract whose `migrate` function must run
    /// next; `resume` ends the migration.
    pub fn upgrade(&mut self, env: &Context, new_implementation: AccountId) -> (r: Result<
        AccountId,
        ProxyError,
    >)
        ensures
            old(self).admin is None ==> r == Err::<AccountId, ProxyError>(ProxyError::AdminNotSet),
            old(self).admin is Some && !env.authorizes(old(self).admin.unwrap()) ==> r == Err::<
                AccountId,
                ProxyError,
            >(ProxyError::NotAuthorized),
            r is Ok <==> old(self).admin is Some && env.authorizes(old(self).admin.unwrap()),
            r is Err ==> final(self).admin == old(self).admin && final(self).paused == old(self).paused
                && final(self).implementation == old(self).implementation && final(self).history@
                == old(self).history@,
            r is Ok ==> {
                &&& r == Ok::<AccountId, ProxyError>(new_implementation)
                &&& final(self).admin == old(self).admin
                &&& final(self).paused
                &&& final(self).implementation == Some(new_implementation)
                &&& final(self).history@ == old(self).history@.push((env.timestamp, new_implementation))
            },
    {
        let admin = match self.admin {
            None => return Err(ProxyError::AdminNotSet),
            Some(a) => a,
        };
        if !env.require_auth(admin) {
            return Err(ProxyError::NotAuthorized);
        }
        self.paused = true;
        self.history.push((env.timestamp, new_implementation));
        self.implementation = Some(new_implementation);
        Ok(new_implementation)
    }

    /// Ends a migration: calls are forwarded again.
    pub fn resume(&mut self)
        ensures
            !final(self).paused,
            final(self).admin == old(self).admin,
            final(self).implementation == old(self).implementation,
            final(self).history@ == old(self).history@,
    {
        self.paused = false;
    }

    /// The contract a call to the proxy is forwarded to: refused while a
    /// migration runs or before an implementation is recorded.
    pub fn __dispatch(&self) -> (r: Result<AccountId, ProxyError>)
        ensures
            self.paused ==> r == Err::<AccountId, ProxyError>(ProxyError::Paused),
            !self.paused && self.implementation is None ==> r == Err::<AccountId, ProxyError>(
                ProxyError::ImplementationNotSet,
            ),
            !self.paused && self.implementation is Some ==> r == Ok::<AccountId, ProxyError>(
                self.implementation.unwrap(),
            ),
    {
        if self.paused {
            return Err(ProxyError::Paused);
        }
        match self.implementation {
            None => Err(ProxyError::ImplementationNotSet),
            Some(a) => Ok(a),
        }
    }
}

} // verus!
