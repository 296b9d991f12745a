use vstd::prelude::*;
use vstd::hash_map::StringHashMap;
use crate::context::{AccountId, Context, Hash32, contains_account};
use crate::pair_map::PairMap;
use crate::types::OracleData;

verus! {

/// Why the oracle contract rejected a call.
#[derive(Clone, Copy, Debug, PartialEq, Eq, Structural)]
pub enum OracleError {
    AlreadyInitialized,
    NotAuthorized,
    NotInitialized,
    CallerNotAdmin,
    ProviderAlreadyRegistered,
    TooManyProviders,
    ProviderNotRegistered,
    ProviderNotFound,
    OracleKeyAlreadyRegistered,
    OracleKeyNotFound,
    OracleNotApproved,
    SignatureExpired,
    InvalidNonce,
    InvalidSignature,
}

/// Most data providers registered at once.
pub const MAX_PROVIDERS: usize = 100;

/// Storage of the oracle contract: its admin, the registered data providers,
/// the latest value submitted under each key, the approved relay keys and the
/// last nonce each relay key used.
pub struct Oracle {
    pub admin: Option<AccountId>,
    pub providers: Vec<AccountId>,
    pub data: StringHashMap<OracleData>,
    pub oracle_keys: PairMap<bool>,
    pub oracle_nonces: PairMap<u64>,
}

/// The oracle's storage as plain values.
pub struct OracleView {
    pub admin: Option<AccountId>,
    pub providers: Seq<AccountId>,
    pub data: Map<Seq<char>, OracleData>,
    pub keys: Map<(u128, u128), bool>,
    pub nonces: Map<(u128, u128), u64>,
}

impl View for Oracle {
    type V = OracleView;

    open spec fn view(&self) -> OracleView {
        OracleView {
            admin: self.admin,
            providers: self.providers@,
            data: self.data@,
            keys: self.oracle_keys.as_map(),
            nonces: self.oracle_nonces.as_map(),
        }
    }
}

/// `s` with every occurrence of `a` taken out, the rest in order.
pub open spec fn without(s: Seq<AccountId>, a: AccountId) -> Seq<AccountId>
    decreases s.len(),
{
    if s.len() == 0 {
        s
    } else if s.last() == a {
        without(s.drop_last(), a)
    } else {
        without(s.drop_last(), a).push(s.last())
    }
}

impl OracleView {
    /// `key` is an approved relay key.
    pub open spec fn approved(self, key: Hash32) -> bool {
        self.keys.contains_key((key.hi, key.lo)) && self.keys[(key.hi, key.lo)]
    }

    /// The last nonce relayed under `key` (0 when none was).
    pub open spec fn nonce_of(self, key: Hash32) -> u64 {
        if self.nonces.contains_key((key.hi, key.lo)) {
            self.nonces[(key.hi, key.lo)]
        } else {
            0
        }
    }

    /// The check every admin operation makes first: `admin` authorized the call
    /// and is the contract's admin.
    pub open spec fn admin_check(self, env: &Context, admin: AccountId) -> Result<(), OracleError> {
        if !env.authorizes(admin) {
            Err(OracleError::NotAuthorized)
        } else if self.admin is None {
            Err(OracleError::NotInitialized)
        } else if self.admin != Some(admin) {
            Err(OracleError::CallerNotAdmin)
        } else {
            Ok(())
        }
    }

    /// The first reason to refuse relaying a payload signed by `oracle_pubkey`
    /// with `nonce` and `deadline`, if any; `signature_valid` is the verdict of
    /// the Ed25519 check of the signature over the relay request.
    pub open spec fn relay_check(
        self,
        env: &Context,
        oracle_pubkey: Hash32,
        nonce: u64,
        deadline: u64,
        signature_valid: bool,
    ) -> Result<(), OracleError> {
        if !self.approved(oracle_pubkey) {
            Err(OracleError::OracleNotApproved)
        } else if env.timestamp > deadline {
            Err(OracleError::SignatureExpired)
        } else if nonce <= self.nonce_of(oracle_pubkey) {
            Err(OracleError::InvalidNonce)
        } else if !signature_valid {
            Err(OracleError::InvalidSignature)
        } else {
            Ok(())
        }
    }

    /// The storage after a relay under `key` with `nonce`.
    pub open spec fn relayed(self, key: Hash32, nonce: u64) -> OracleView {
        OracleView { nonces: self.nonces.insert((key.hi, key.lo), nonce), ..self }
    }
}

impl Oracle {
    /// An empty contract: no admin, no providers, no data, no relay keys.
    pub fn new() -> (s: Oracle)
        ensures
            s@.admin is None,
            s@.providers == Seq::<AccountId>::empty(),
            s@.data == Map::<Seq<char>, OracleData>::empty(),
            s@.keys == Map::<(u128, u128), bool>::empty(),
            s@.nonces == Map::<(u128, u128), u64>::empty(),
    {
        Oracle {
            admin: None,
            providers: Vec::new(),
            data: StringHashMap::new(),
            oracle_keys: PairMap::new(),
            oracle_nonces: PairMap::new(),
        }
    }

    /// One-time setup: `admin` becomes the admin and the provider list starts empty.
    pub fn init_contract(&mut self, env: &Context, admin: AccountId) -> (r: Result<(), OracleError>)
        ensures
            old(self)@.admin is Some ==> r == Err::<(), OracleError>(OracleError::AlreadyInitialized),
            old(self)@.admin is None && !env.authorizes(admin) ==> r == Err::<(), OracleError>(
                OracleError::NotAuthorized,
            ),
            r is Ok <==> old(self)@.admin is None && env.authorizes(admin),
            r is Err ==> final(self)@ == old(self)@,
            r is Ok ==> final(self)@ == (OracleView {
                admin: Some(admin),
                providers: Seq::<AccountId>::empty(),
                ..old(self)@
            }),
    {
        if self.admin.is_some() {
            return Err(OracleError::AlreadyInitialized);
        }
        if !env.require_auth(admin) {
            return Err(OracleError::NotAuthorized);
        }
        self.admin = Some(admin);
        self.providers = Vec::new();
        Ok(())
    }

    /// Whether `caller` is the admin: `NotInitialized` before setup,
    /// `CallerNotAdmin` for anyone else.
    pub fn verify_admin(&self, caller: AccountId) -> (r: Result<(), OracleError>)
        ensures
            self@.admin is None ==> r == Err::<(), OracleError>(OracleError::NotInitialized),
            self@.admin == Some(caller) ==> r == Ok::<(), OracleError>(()),
            self@.admin is Some && self@.admin != Some(caller) ==> r == Err::<(), OracleError>(
                OracleError::CallerNotAdmin,
            ),
    {
        match self.admin {
            None => Err(OracleError::NotInitialized),
            Some(a) => if a == caller {
                Ok(())
            } else {
                Err(OracleError::CallerNotAdmin)
            },
        }
    }

    /// The admin check of every admin operation, as `admin_check` says.
    fn check_admin(&self, env: &Context, admin: AccountId) -> (r: Result<(), OracleError>)
        ensures
            r == self@.admin_check(env, admin),
    {
        if !env.require_auth(admin) {
            return Err(OracleError::NotAuthorized);
        }
        self.verify_admin(admin)
    }

    /// Whether `provider` is a registered data provider.
    pub fn is_authorized_provider(&self, provider: AccountId) -> (b: bool)
        ensures
            b == self@.providers.contains(provider),
    {
        contains_account(&self.providers, provider)
    }

    /// The admin registers `provider` as a data provider, at the end of the list
    /// (at most `MAX_PROVIDERS` are registered at once).
    pub fn register_provider(&mut self, env: &Context, admin: AccountId, provider: AccountId) -> (r:
        Result<(), OracleError>)
        ensures
            old(self)@.admin_check(env, admin) is Err ==> r == old(self)@.admin_check(env, admin),
            old(self)@.admin_check(env, admin) is Ok && old(self)@.providers.contains(provider) ==> r
                == Err::<(), OracleError>(OracleError::ProviderAlreadyRegistered),
            old(self)@.admin_check(env, admin) is Ok && !old(self)@.providers.contains(provider)
                && old(self)@.providers.len() >= MAX_PROVIDERS ==> r == Err::<(), OracleError>(
                OracleError::TooManyProviders,
            ),
            r is Ok <==> old(self)@.admin_check(env, admin) is Ok && !old(self)@.providers.contains(
                provider,
            ) && old(self)@.providers.len() < MAX_PROVIDERS,
            r is Err ==> final(self)@ == old(self)@,
            r is Ok ==> final(self)@ == (OracleView {
                providers: old(self)@.providers.push(provider),
                ..old(self)@
            }),
    {
        self.check_admin(env, admin)?;
        if contains_account(&self.providers, provider) {
            return Err(OracleError::ProviderAlreadyRegistered);
        }
        if self.providers.len() >= MAX_PROVIDERS {
            return Err(OracleError::TooManyProviders);
        }
        self.providers.push(provider);
        Ok(())
    }

    /// A registered provider submits `value` under `key`, replacing what was
    /// there; the record carries the ledger time and the provider.
    pub fn submit_data(&mut self, env: &Context, provider: AccountId, key: String, value: i128) -> (r:
        Result<(), OracleError>)
        ensures
            !env.authorizes(provider) ==> r == Err::<(), OracleError>(OracleError::NotAuthorized),
            env.authorizes(provider) && !old(self)@.providers.contains(provider) ==> r == Err::<
                (),
                OracleError,
            >(OracleError::ProviderNotRegistered),
            r is Ok <==> env.authorizes(provider) && old(self)@.providers.contains(provider),
            r is Err ==> final(self)@ == old(self)@,
            r is Ok ==> final(self)@ == (OracleView {
                data: old(self)@.data.insert(
                    key@,
                    OracleData {
                        key,
                        value,
                        timestamp: env.timestamp,
                        provider,
                        signature: None,
                        source: None,
                    },
                ),
                ..old(self)@
            }),
    {
        if !env.require_auth(provider) {
            return Err(OracleError::NotAuthorized);
        }
        if !contains_account(&self.providers, provider) {
            return Err(OracleError::ProviderNotRegistered);
        }
        let record = OracleData {
            key: key.clone(),
            value,
            timestamp: env.timestamp,
            provider,
            signature: None,
            source: None,
        };
        self.data.insert(key, record);
        Ok(())
    }

    /// The latest record submitted under `key`, if any.
    pub fn get_data(&self, key: &str) -> (r: Option<&OracleData>)
        ensures
            match r {
                Some(d) => self@.data.contains_key(key@) && *d == self@.data[key@],
                None => !self@.data.contains_key(key@),
            },
    {
        self.data.get(key)
    }

    /// The admin takes `provider` off the provider list, keeping the others in order.
    pub fn deregister_provider(&mut self, env: &Context, admin: AccountId, provider: AccountId) -> (r:
        Result<(), OracleError>)
        ensures
            old(self)@.admin_check(env, admin) is Err ==> r == old(self)@.admin_check(env, admin),
            old(self)@.admin_check(env, admin) is Ok && !old(self)@.providers.contains(provider) ==> r
                == Err::<(), OracleError>(OracleError::ProviderNotFound),
            r is Ok <==> old(self)@.admin_check(env, admin) is Ok && old(self)@.providers.contains(
                provider,
            ),
            r is Err ==> final(self)@ == old(self)@,
            r is Ok ==> final(self)@ == (OracleView {
                providers: without(old(self)@.providers, provider),
                ..old(self)@
            }),
    {
        self.check_admin(env, admin)?;
        let n = self.providers.len();
        let mut kept: Vec<AccountId> = Vec::new();
        let mut found = false;
        let mut i: usize = 0;
        while i < n
            invariant
                n == self.providers@.len(),
                i <= n,
                kept@ == without(self.providers@.take(i as int), provider),
                found <==> self.providers@.take(i as int).contains(provider),
            decreases n - i,
        {
            let p = self.providers[i];
            proof {
                assert(self.providers@.take(i + 1).drop_last() =~= self.providers@.take(i as int));
                assert(self.providers@.take(i + 1).last() == p);
                assert(self.providers@.take(i + 1) =~= self.providers@.take(i as int).push(p));
                vstd::seq_lib::lemma_seq_contains_after_push(self.providers@.take(i as int), p, provider);
            }
            if p != provider {
                kept.push(p);
            } else {
                found = true;
            }
            i = i + 1;
        }
        proof {
            assert(self.providers@.take(n as int) =~= self.providers@);
        }
        if !found {
            return Err(OracleError::ProviderNotFound);
        }
        self.providers = kept;
        Ok(())
    }

    /// Whether `oracle_pubkey` is an approved relay key.
    pub fn is_approved_oracle_key(&self, oracle_pubkey: Hash32) -> (b: bool)
        ensures
            b == self@.approved(oracle_pubkey),
    {
        match self.oracle_keys.get(oracle_pubkey.hi, oracle_pubkey.lo) {
            Some(v) => *v,
            None => false,
        }
    }

    /// The admin approves `oracle_pubkey` as a relay key.
    pub fn register_oracle_key(&mut self, env: &Context, admin: AccountId, oracle_pubkey: Hash32) -> (r:
        Result<(), OracleError>)
        ensures
            old(self)@.admin_check(env, admin) is Err ==> r == old(self)@.admin_check(env, admin),
            old(self)@.admin_check(env, admin) is Ok && old(self)@.approved(oracle_pubkey) ==> r
                == Err::<(), OracleError>(OracleError::OracleKeyAlreadyRegistered),
            r is Ok <==> old(self)@.admin_check(env, admin) is Ok && !old(self)@.approved(
                oracle_pubkey,
            ),
            r is Err ==> final(self)@ == old(self)@,
            r is Ok ==> final(self)@ == (OracleView {
                keys: old(self)@.keys.insert((oracle_pubkey.hi, oracle_pubkey.lo), true),
                ..old(self)@
            }),
    {
        self.check_admin(env, admin)?;
        if self.is_approved_oracle_key(oracle_pubkey) {
            return Err(OracleError::OracleKeyAlreadyRegistered);
        }
        self.oracle_keys.insert(oracle_pubkey.hi, oracle_pubkey.lo, true);
        Ok(())
    }

    /// The admin withdraws the approval of `oracle_pubkey`; its nonce record goes too.
    pub fn deregister_oracle_key(&mut self, env: &Context, admin: AccountId, oracle_pubkey: Hash32) -> (r:
        Result<(), OracleError>)
        ensures
            old(self)@.admin_check(env, admin) is Err ==> r == old(self)@.admin_check(env, admin),
            old(self)@.admin_check(env, admin) is Ok && !old(self)@.approved(oracle_pubkey) ==> r
                == Err::<(), OracleError>(OracleError::OracleKeyNotFound),
            r is Ok <==> old(self)@.admin_check(env, admin) is Ok && old(self)@.approved(
                oracle_pubkey,
            ),
            r is Err ==> final(self)@ == old(self)@,
            r is Ok ==> final(self)@ == (OracleView {
                keys: old(self)@.keys.remove((oracle_pubkey.hi, oracle_pubkey.lo)),
                nonces: old(self)@.nonces.remove((oracle_pubkey.hi, oracle_pubkey.lo)),
                ..old(self)@
            }),
    {
        self.check_admin(env, admin)?;
        if !self.is_approved_oracle_key(oracle_pubkey) {
            return Err(OracleError::OracleKeyNotFound);
        }
        let _ = self.oracle_keys.remove(oracle_pubkey.hi, oracle_pubkey.lo);
        let _ = self.oracle_nonces.remove(oracle_pubkey.hi, oracle_pubkey.lo);
        Ok(())
    }

    /// Whether `oracle_pubkey` is an approved relay key.
    pub fn is_registered_oracle_key(&self, oracle_pubkey: Hash32) -> (b: bool)
        ensures
            b == self@.approved(oracle_pubkey),
    {
        self.is_approved_oracle_key(oracle_pubkey)
    }

    /// The last nonce relayed under `oracle_pubkey` (0 when none was).
    pub fn get_oracle_nonce(&self, oracle_pubkey: Hash32) -> (n: u64)
        ensures
            n == self@.nonce_of(oracle_pubkey),
    {
        match self.oracle_nonces.get(oracle_pubkey.hi, oracle_pubkey.lo) {
            Some(v) => *v,
            None => 0,
        }
    }

    /// Records `nonce` as the last nonce relayed under `oracle_pubkey`.
    pub fn set_oracle_nonce(&mut self, oracle_pubkey: Hash32, nonce: u64)
        ensures
            final(self)@ == old(self)@.relayed(oracle_pubkey, nonce),
    {
        self.oracle_nonces.insert(oracle_pubkey.hi, oracle_pubkey.lo, nonce);
    }

    /// The checks a relay makes before the signature is looked at: the key is
    /// approved, the deadline has not passed and the nonce is fresh.
    pub fn relay_precheck(&self, env: &Context, oracle_pubkey: Hash32, nonce: u64, deadline: u64) -> (r:
        Result<(), OracleError>)
        ensures
            r == self@.relay_check(env, oracle_pubkey, nonce, deadline, true),
    {
        if !self.is_approved_oracle_key(oracle_pubkey) {
            return Err(OracleError::OracleNotApproved);
        }
        if env.timestamp > deadline {
            return Err(OracleError::SignatureExpired);
        }
        if nonce <= self.get_oracle_nonce(oracle_pubkey) {
            return Err(OracleError::InvalidNonce);
        }
        Ok(())
    }

    /// Accepts a payload signed by an approved relay key: the deadline has not
    /// passed, the nonce is above the last one used under the key, and
    /// `signature_valid` (the Ed25519 verdict on the signed relay request) holds.
    /// The nonce is then recorded, and the payload may be forwarded to its target.
    pub fn relay_signed(
        &mut self,
        env: &Context,
        oracle_pubkey: Hash32,
        nonce: u64,
        deadline: u64,
        signature_valid: bool,
    ) -> (r: Result<(), OracleError>)
        ensures
            r == old(self)@.relay_check(env, oracle_pubkey, nonce, deadline, signature_valid),
            r is Err ==> final(self)@ == old(self)@,
            r is Ok ==> final(self)@ == old(self)@.relayed(oracle_pubkey, nonce),
    {
        if !self.is_approved_oracle_key(oracle_pubkey) {
            return Err(OracleError::OracleNotApproved);
        }
        if env.timestamp > deadline {
            return Err(OracleError::SignatureExpired);
        }
        let stored = self.get_oracle_nonce(oracle_pubkey);
        if nonce <= stored {
            return Err(OracleError::InvalidNonce);
        }
        if !signature_valid {
            return Err(OracleError::InvalidSignature);
        }
        self.set_oracle_nonce(oracle_pubkey, nonce);
        Ok(())
    }
}

/// Replay protection of relayed payloads: once a payload with nonce `nonce`
/// has been relayed under a key, no payload under that key with a nonce at or
/// below it is relayed again, whatever its deadline and signature.
pub proof fn relayed_nonce_not_replayable(
    v: OracleView,
    env: &Context,
    oracle_pubkey: Hash32,
    nonce: u64,
    later_nonce: u64,
    deadline: u64,
    signature_valid: bool,
)
    requires
        later_nonce <= nonce,
    ensures
        v.relayed(oracle_pubkey, nonce).relay_check(
            env,
            oracle_pubkey,
            later_nonce,
            deadline,
            signature_valid,
        ) is Err,
{
}

/// Taking a provider off the list removes it entirely and keeps every other
/// provider.
pub proof fn deregistered_provider_removed(s: Seq<AccountId>, a: AccountId)
    ensures
        !without(s, a).contains(a),
        forall|x: AccountId| x != a ==> (#[trigger] without(s, a).contains(x) <==> s.contains(x)),
    decreases s.len(),
{
    if s.len() > 0 {
        deregistered_provider_removed(s.drop_last(), a);
        assert(s =~= s.drop_last().push(s.last()));
        vstd::seq_lib::lemma_seq_contains_after_push(without(s.drop_last(), a), s.last(), a);
        assert forall|x: AccountId| x != a implies (#[trigger] without(s, a).contains(x) <==> s.contains(
            x,
        )) by {
            vstd::seq_lib::lemma_seq_contains_after_push(s.drop_last(), s.last(), x);
            vstd::seq_lib::lemma_seq_contains_after_push(without(s.drop_last(), a), s.last(), x);
        }
    }
}

} // verus!
