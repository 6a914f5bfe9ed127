//! Sign-in sessions and request bodies: the size limit on a body read in
//! chunks, and the random token a session is known by.

use vstd::prelude::*;
use rand::distributions::Alphanumeric;
use rand::{thread_rng, Rng};
use crate::models::{Account, SignInProRes, SignInRes};

verus! {

/// The largest request body accepted, in bytes (256 KiB).
pub const MAX_SIZE: usize = 262_144;

/// The running size of a request body being read; it never exceeds [`MAX_SIZE`].
pub struct PayloadGuard {
    received: usize,
}

impl PayloadGuard {
    #[verifier::type_invariant]
    spec fn within_limit(self) -> bool {
        self.received <= MAX_SIZE
    }
}

impl View for PayloadGuard {
    type V = nat;

    closed spec fn view(&self) -> nat {
        self.received as nat
    }
}

impl PayloadGuard {
    /// A guard for a body of which nothing has been read.
    pub fn new() -> (g: Self)
        ensures
            g@ == 0,
    {
        PayloadGuard { received: 0 }
    }

    /// The number of bytes accepted so far.
    pub fn received(&self) -> (n: usize)
        ensures
            n == self@,
            n <= MAX_SIZE,
    {
        proof {
            use_type_invariant(self);
        }
        self.received
    }

    /// Accepts a chunk of `chunk_len` bytes if the body stays within the limit;
    /// a refused chunk leaves the count as it was.
    pub fn accept_chunk(&mut self, chunk_len: usize) -> (ok: bool)
        ensures
            ok == (old(self)@ + chunk_len <= MAX_SIZE),
            ok ==> final(self)@ == old(self)@ + chunk_len,
            !ok ==> final(self)@ == old(self)@,
    {
        proof {
            use_type_invariant(&*self);
        }
        if chunk_len > MAX_SIZE - self.received {
            false
        } else {
            self.received = self.received + chunk_len;
            true
        }
    }
}

/// The total of a list of chunk sizes.
pub open spec fn total_len(chunks: Seq<nat>) -> nat
    decreases chunks.len(),
{
    if chunks.len() == 0 {
        0
    } else {
        chunks[0] + total_len(chunks.drop_first())
    }
}

/// Reading chunks one after the other from `received` bytes: the final size,
/// or `None` at the first chunk that would pass the limit.
pub open spec fn read_chunks(received: nat, chunks: Seq<nat>) -> Option<nat>
    decreases chunks.len(),
{
    if chunks.len() == 0 {
        Some(received)
    } else if received + chunks[0] <= MAX_SIZE {
        read_chunks(received + chunks[0], chunks.drop_first())
    } else {
        None
    }
}

/// A body read in chunks is accepted exactly when its total size is within
/// the limit, and then its size is that total.
pub proof fn law_body_limit(chunks: Seq<nat>)
    ensures
        read_chunks(0, chunks) == if total_len(chunks) <= MAX_SIZE {
            Some(total_len(chunks))
        } else {
            None
        },
{
    lemma_read_chunks(0, chunks);
}

proof fn lemma_read_chunks(received: nat, chunks: Seq<nat>)
    requires
        received <= MAX_SIZE,
    ensures
        read_chunks(received, chunks) == if received + total_len(chunks) <= MAX_SIZE {
            Some(received + total_len(chunks))
        } else {
            None
        },
    decreases chunks.len(),
{
    if chunks.len() > 0 {
        assert(total_len(chunks) == chunks[0] + total_len(chunks.drop_first()));
        if received + chunks[0] <= MAX_SIZE {
            lemma_read_chunks(received + chunks[0], chunks.drop_first());
        }
    }
}

/// ASCII letters and digits.
pub open spec fn is_alphanumeric(c: char) -> bool {
    ('0' <= c && c <= '9') || ('A' <= c && c <= 'Z') || ('a' <= c && c <= 'z')
}

/// The length of a session token.
pub const TOKEN_LEN: usize = 15;

/// Draws `len` characters with `rand`: `thread_rng().sample_iter(Alphanumeric)`,
/// each byte taken as a `char`.
///
/// The characters are random; the contract claims only what holds of every
/// draw: `len` of them, each an ASCII letter or digit (`Alphanumeric` samples
/// from `A-Z`, `a-z` and `0-9`).
#[verifier::external_body]
fn random_alphanumeric(len: usize) -> (s: String)
    ensures
        s@.len() == len,
        forall|i: int| 0 <= i < s@.len() ==> is_alphanumeric(#[trigger] s@[i]),
{
    thread_rng().sample_iter(Alphanumeric).take(len).map(char::from).collect()
}

/// A fresh session token: fifteen random ASCII letters and digits.
pub fn new_session_token() -> (t: String)
    ensures
        t@.len() == TOKEN_LEN,
        forall|i: int| 0 <= i < t@.len() ==> is_alphanumeric(#[trigger] t@[i]),
{
    random_alphanumeric(TOKEN_LEN)
}

/// The answer to a successful sign-in of `account`: its name, id and role,
/// the products it may see, and its session token.
pub fn sign_in_response(account: &Account, products: Vec<SignInProRes>, token: String) -> (r: SignInRes)
    ensures
        r.name@ == account.acc_name@,
        r.account == account.acc_id,
        r.admin@ == account.admin@,
        r.products@ == products@,
        r.token@ == token@,
{
    SignInRes {
        name: account.acc_name.clone(),
        account: account.acc_id,
        admin: account.admin.clone(),
        products,
        token,
    }
}

} // verus!
