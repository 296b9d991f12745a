use vstd::prelude::*;

verus! {

/// An account or contract address. Addresses are only ever compared for
/// equality, so an address is identified by a number that the host side assigns
/// one-to-one.
#[derive(Clone, Copy, Debug, PartialEq, Eq, Hash, Structural)]
pub struct AccountId {
    pub id: u64,
}

/// A 32-byte value (an agent identifier or an Ed25519 public key), as two
/// big-endian halves.
#[derive(Clone, Copy, Debug, PartialEq, Eq, Hash, Structural)]
pub struct Hash32 {
    pub hi: u128,
    pub lo: u128,
}

/// What a contract invocation can see of the ledger: the close time and sequence
/// number of the current ledger, the address of the contract being run, and the
/// addresses that authorized the invocation (`all_authorized` stands for a host
/// that accepts every authorization request).
pub struct Context {
    pub timestamp: u64,
    pub sequence: u32,
    pub current_contract: AccountId,
    pub signers: Vec<AccountId>,
    pub all_authorized: bool,
}

impl Context {
    /// `a` has authorized this invocation.
    pub open spec fn authorizes(&self, a: AccountId) -> bool {
        self.all_authorized || self.signers@.contains(a)
    }

    /// A context at ledger time `timestamp` in which every authorization request succeeds.
    pub fn new(timestamp: u64, sequence: u32, current_contract: AccountId) -> (c: Context)
        ensures
            c.timestamp == timestamp,
            c.sequence == sequence,
            c.current_contract == current_contract,
            c.all_authorized,
            c.signers@.len() == 0,
    {
        Context { timestamp, sequence, current_contract, signers: Vec::new(), all_authorized: true }
    }

    /// A context in which exactly the addresses in `signers` have authorized the invocation.
    pub fn with_signers(
        timestamp: u64,
        sequence: u32,
        current_contract: AccountId,
        signers: Vec<AccountId>,
    ) -> (c: Context)
        ensures
            c.timestamp == timestamp,
            c.sequence == sequence,
            c.current_contract == current_contract,
            !c.all_authorized,
            c.signers@ == signers@,
    {
        Context { timestamp, sequence, current_contract, signers, all_authorized: false }
    }

    /// Whether `a` has authorized this invocation (the check behind `require_auth`).
    pub fn require_auth(&self, a: AccountId) -> (r: bool)
        ensures
            r == self.authorizes(a),
    {
        if self.all_authorized {
            return true;
        }
        let n = self.signers.len();
        let mut i: usize = 0;
        while i < n
            invariant
                n == self.signers@.len(),
                i <= n,
                forall|j: int| 0 <= j < i ==> self.signers@[j] != a,
            decreases n - i,
        {
            if self.signers[i] == a {
                return true;
            }
            i = i + 1;
        }
        false
    }
}

/// Whether `a` occurs in `v`.
pub fn contains_account(v: &Vec<AccountId>, a: AccountId) -> (r: bool)
    ensures
        r == v@.contains(a),
{
    let n = v.len();
    let mut i: usize = 0;
    while i < n
        invariant
            n == v@.len(),
            i <= n,
            forall|j: int| 0 <= j < i ==> v@[j] != a,
        decreases n - i,
    {
        if v[i] == a {
            assert(v@[i as int] == a);
            return true;
        }
        i = i + 1;
    }
    false
}

/// The number of bytes of the UTF-8 encoding of `s`.
pub open spec fn byte_len(s: String) -> nat {
    vstd::utf8::encode_utf8(s@).len()
}

/// The byte length of `s`, as a host string reports it.
pub fn text_len(s: &String) -> (n: usize)
    ensures
        n == byte_len(*s),
{
    s.as_str().as_bytes().len()
}

} // verus!
