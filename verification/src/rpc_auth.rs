//! Authentication of RPC calls.
//!
//! A [Token] is passed with every RPC call and checked against the valid
//! tokens of the node. Today the one kind of token is a [Cookie]: 32 secret
//! bytes that the node writes to a file each time it starts, which local
//! clients with read access to the file present.
use vstd::prelude::*;

verus! {

/// An RPC authentication cookie.
#[derive(Debug, Clone, Copy, PartialEq, Eq, Hash)]
pub struct Cookie(pub [u8; 32]);

/// An RPC authentication token.
#[derive(Debug, Clone, Copy)]
pub enum Token {
    Cookie(Cookie),
}

/// Why authentication failed.
#[derive(Debug, Clone, Copy, PartialEq, Eq, Structural)]
pub enum AuthError {
    /// invalid authentication cookie
    InvalidCookie,
}

/// The bytes of a cookie.
pub open spec fn cookie_bytes(c: Cookie) -> Seq<u8> {
    c.0@
}

/// 32 random bytes.
///
/// Trusted: calls `rand::random::<[u8; 32]>()` of the rand crate, whose
/// result depends on chance; nothing is stated of it.
#[verifier::external_body]
fn random_cookie_bytes() -> (r: [u8; 32]) {
    rand::random()
}

impl Cookie {
    /// The cookie of the given bytes.
    pub fn from_bytes(bytes: [u8; 32]) -> (r: Self)
        ensures
            cookie_bytes(r) == bytes@,
    {
        Cookie(bytes)
    }

    /// A new cookie of random bytes, kept in memory only: no cookie file is
    /// written.
    pub fn new_in_mem() -> (r: Self) {
        Cookie(random_cookie_bytes())
    }

    /// Whether the cookie has the same bytes as `other`.
    pub fn same_bytes(&self, other: &Self) -> (r: bool)
        ensures
            r == (cookie_bytes(*self) == cookie_bytes(*other)),
    {
        let mut i: usize = 0;
        while i < 32
            invariant
                i <= 32,
                self.0@.len() == 32,
                other.0@.len() == 32,
                self.0@.take(i as int) == other.0@.take(i as int),
            decreases 32 - i,
        {
            if self.0[i] != other.0[i] {
                assert(self.0@[i as int] != other.0@[i as int]);
                return false;
            }
            assert(self.0@.take(i + 1) =~= self.0@.take(i as int).push(self.0@[i as int]));
            assert(other.0@.take(i + 1) =~= other.0@.take(i as int).push(other.0@[i as int]));
            i = i + 1;
        }
        assert(self.0@.take(32) =~= self.0@);
        assert(other.0@.take(32) =~= other.0@);
        true
    }

    /// authenticate against a known valid cookie: succeeds exactly when the
    /// bytes are the same.
    pub fn auth(&self, valid: &Self) -> (r: Result<(), AuthError>)
        ensures
            r == (if cookie_bytes(*self) == cookie_bytes(*valid) {
                Ok(())
            } else {
                Err(AuthError::InvalidCookie)
            }),
    {
        if self.same_bytes(valid) {
            Ok(())
        } else {
            Err(AuthError::InvalidCookie)
        }
    }
}

/// The outcome of authenticating `t` against the valid token `valid` of the
/// same kind.
pub open spec fn token_auth_spec(t: Token, valid: Token) -> Result<(), AuthError> {
    match (t, valid) {
        (Token::Cookie(c), Token::Cookie(v)) => if cookie_bytes(c) == cookie_bytes(v) {
            Ok(())
        } else {
            Err(AuthError::InvalidCookie)
        },
    }
}

impl Token {
    /// The token of a cookie.
    pub fn from_cookie(c: Cookie) -> (r: Self)
        ensures
            r == Token::Cookie(c),
    {
        Token::Cookie(c)
    }

    /// authenticate this token against known valid token data.
    ///
    /// `valid_tokens` holds one valid token of each kind; the token is
    /// checked against the first valid token of its own kind, and any later
    /// one of that kind is ignored. Today there is one kind, so the first
    /// valid token decides.
    pub fn auth(&self, valid_tokens: &[Self]) -> (r: Result<(), AuthError>)
        requires
            valid_tokens@.len() > 0,
        ensures
            r == token_auth_spec(*self, valid_tokens@[0]),
    {
        let valid_token = &valid_tokens[0];
        match (self, valid_token) {
            (Token::Cookie(c), Token::Cookie(valid)) => c.auth(valid),
        }
    }
}

impl From<Cookie> for Token {
    fn from(c: Cookie) -> (r: Self) {
        Token::Cookie(c)
    }
}

impl vstd::std_specs::convert::FromSpecImpl<Cookie> for Token {
    open spec fn obeys_from_spec() -> bool {
        true
    }

    open spec fn from_spec(c: Cookie) -> Self {
        Token::Cookie(c)
    }
}

/// A token authenticates against a valid token with the same bytes, and
/// authentication does not depend on which of two tokens is the valid one.
pub proof fn lemma_token_auth_laws(a: Cookie, b: Cookie)
    ensures
        token_auth_spec(Token::Cookie(a), Token::Cookie(a)) == Ok::<(), AuthError>(()),
        token_auth_spec(Token::Cookie(a), Token::Cookie(b)) == token_auth_spec(
            Token::Cookie(b),
            Token::Cookie(a),
        ),
        token_auth_spec(Token::Cookie(a), Token::Cookie(b)) is Ok <==> cookie_bytes(a) == cookie_bytes(b),
{
}

/// A hint a client can use to authenticate on its own: where the node keeps
/// its data (so where the cookie file lies) and on which network it runs. The
/// data-directory type is a parameter.
#[derive(Debug, Clone)]
pub struct CookieHint<D> {
    pub data_directory: D,
    pub network: crate::network::Network,
}

} // verus!
