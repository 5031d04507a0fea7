//! The key that guards the gateway.

use crate::llamacpp::LlamaCppBackend;
use rand::rngs::ThreadRng;
use rand::Rng;
use vstd::prelude::*;
use vstd::string::*;

verus! {

/// `rand::rngs::ThreadRng`, carried through and never looked into.
#[verifier::external_type_specification]
#[verifier::external_body]
pub struct ExThreadRng(ThreadRng);

/// `rand::rng`: a handle to the generator of the current thread. Nothing is
/// claimed of it.
pub assume_specification[ rand::rng ]() -> (rng: ThreadRng);

/// `Rng::random_range` over `0..bound`: some number below `bound`; which
/// one is left open. An empty range is not sampled.
#[verifier::external_body]
fn random_below(rng: &mut ThreadRng, bound: usize) -> (n: usize)
    requires
        bound > 0,
    ensures
        n < bound,
{
    rng.random_range(0..bound)
}

/// Length of a key made at random.
pub const RANDOM_APIKEY_LEN: usize = 25;

/// Number of characters a random key is made of.
pub const CHARSET_LEN: usize = 62;

/// The characters a random key is made of: the upper-case letters, the
/// lower-case letters, the digits.
pub open spec fn charset() -> Seq<char> {
    "ABCDEFGHIJKLMNOPQRSTUVWXYZabcdefghijklmnopqrstuvwxyz0123456789"@
}

/// The character at a position of the character set.
pub fn charset_char(index: usize) -> (c: char)
    requires
        index < CHARSET_LEN,
    ensures
        c == charset()[index as int],
{
    proof {
        reveal_strlit("ABCDEFGHIJKLMNOPQRSTUVWXYZabcdefghijklmnopqrstuvwxyz0123456789");
    }
    "ABCDEFGHIJKLMNOPQRSTUVWXYZabcdefghijklmnopqrstuvwxyz0123456789".get_char(index)
}

/// Whether a text is a key as the gateway makes them: of the given length
/// and of characters of the character set.
pub open spec fn is_generated_key(key: Seq<char>, len: nat) -> bool {
    &&& key.len() == len
    &&& forall|i: int| 0 <= i < key.len() ==> charset().contains(#[trigger] key[i])
}

/// A key of `len` characters drawn at random from the character set.
pub fn random_api_key(len: usize) -> (key: String)
    ensures
        is_generated_key(key@, len as nat),
{
    let mut rng = rand::rng();
    let mut key = String::new();
    let mut i: usize = 0;
    while i < len
        invariant
            i <= len,
            is_generated_key(key@, i as nat),
        decreases len - i,
    {
        let index = random_below(&mut rng, CHARSET_LEN);
        proof {
            reveal_strlit("ABCDEFGHIJKLMNOPQRSTUVWXYZabcdefghijklmnopqrstuvwxyz0123456789");
            assert(charset().contains(charset()[index as int]));
        }
        key.push(charset_char(index));
        i += 1;
    }
    key
}

/// What the gateway runs with: the backend and the key.
#[derive(Debug, Clone)]
pub struct AppState {
    llamacpp_backend: LlamaCppBackend,
    api_key: String,
}

/// Collects what the gateway runs with.
#[derive(Debug, Clone)]
pub struct AppStateBuilder {
    llamacpp_backend: LlamaCppBackend,
    api_key: Option<String>,
}

impl AppState {
    /// The key.
    pub closed spec fn spec_api_key(&self) -> Seq<char> {
        self.api_key@
    }

    /// The backend.
    pub closed spec fn spec_backend(&self) -> LlamaCppBackend {
        self.llamacpp_backend
    }

    /// Begins with a backend and no key.
    pub fn builder(llamacpp_backend: LlamaCppBackend) -> (b: AppStateBuilder)
        ensures
            b.spec_api_key() is None,
            b.spec_backend() == llamacpp_backend,
    {
        AppStateBuilder { llamacpp_backend, api_key: None }
    }

    /// The key.
    pub fn api_key(&self) -> (key: &str)
        ensures
            key@ == self.spec_api_key(),
    {
        self.api_key.as_str()
    }

    /// The backend.
    pub fn llamacpp_backend(&self) -> (backend: &LlamaCppBackend)
        ensures
            *backend == self.spec_backend(),
    {
        &self.llamacpp_backend
    }
}

impl AppStateBuilder {
    /// The key provided so far, if any.
    pub closed spec fn spec_api_key(&self) -> Option<Seq<char>> {
        crate::text::opt_text_view(self.api_key)
    }

    /// The backend.
    pub closed spec fn spec_backend(&self) -> LlamaCppBackend {
        self.llamacpp_backend
    }

    /// Provides the key.
    pub fn with_api_key(&mut self, api_key: String) -> (b: &mut Self)
        ensures
            b.spec_api_key() == Some(api_key@),
            b.spec_backend() == old(self).spec_backend(),
            *final(self) == *final(b),
    {
        self.api_key = Some(api_key);
        self
    }

    /// The state with the key that was provided.
    pub fn build_with(self, fallback: String) -> (state: AppState)
        ensures
            state.spec_backend() == self.spec_backend(),
            state.spec_api_key() == match self.spec_api_key() {
                Some(key) => key,
                None => fallback@,
            },
    {
        let api_key = match self.api_key {
            Some(key) => key,
            None => fallback,
        };
        AppState { llamacpp_backend: self.llamacpp_backend, api_key }
    }

    /// The state, with the key that was provided or, if none was, with one
    /// made at random.
    pub fn build(self) -> (state: AppState)
        ensures
            state.spec_backend() == self.spec_backend(),
            match self.spec_api_key() {
                Some(key) => state.spec_api_key() == key,
                None => is_generated_key(state.spec_api_key(), RANDOM_APIKEY_LEN as nat),
            },
    {
        let fallback = random_api_key(RANDOM_APIKEY_LEN);
        self.build_with(fallback)
    }
}

} // verus!
