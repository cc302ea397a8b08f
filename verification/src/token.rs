//! Opaque session tokens and their issuing.
//!
//! A token's value is the base64 text of 16 random bytes. Persisting a token
//! is the caller's work: `Token::create` hands out a candidate, and
//! `TokenIssue::resolve` says what to do with the store's answer. A candidate
//! whose value the store already holds is replaced once; a second collision
//! fails the issue.

use crate::encoding::{base64_encode, base64_text};
use crate::ident::fresh_uuid;
use crate::user::User;
use rand::Rng;
use uuid::Uuid;
use vstd::prelude::*;

verus! {

/// Number of random bytes behind a token's value.
pub const TOKEN_BYTES: usize = 16;

/// Number of characters in a token's value.
pub const TOKEN_LEN: usize = 24;

/// A token: its own identity, its value, and the user it stands for.
#[derive(Debug, Clone)]
pub struct Token {
    pub id: Uuid,
    pub value: String,
    pub user_id: Uuid,
}

/// What the store answered to the insertion of a token.
#[derive(Debug, Clone, Copy, PartialEq, Eq, Structural)]
pub enum InsertOutcome {
    /// The token is stored.
    Ack,
    /// Another token already has this value.
    UniqueViolation,
    /// The store failed for any other reason.
    Failed,
}

/// A token on its way into the store.
#[derive(Debug)]
pub struct TokenIssue {
    candidate: Token,
    retried: bool,
}

/// What follows the store's answer to an insertion.
#[derive(Debug)]
pub enum IssueStep {
    /// The token is stored and can be handed to the client.
    Issued(Token),
    /// The value was taken: insert the new candidate instead.
    Retry(TokenIssue),
    /// The issue failed; no token is handed out.
    Failed,
}

/// A value as `Token::new` makes it: the base64 text of `TOKEN_BYTES` bytes.
pub open spec fn is_token_value(value: Seq<char>) -> bool {
    exists|bytes: Seq<u8>| bytes.len() == TOKEN_BYTES && value == #[trigger] base64_text(bytes)
}

/// Calls `rand::thread_rng` and `rand::Rng::gen` for one byte of the thread's
/// cryptographically secure generator. Nothing is promised of its value.
#[verifier::external_body]
fn random_u8() -> u8 {
    rand::thread_rng().gen()
}

/// Draws `amount` random bytes.
pub fn generate_random_u8s(amount: usize) -> (bytes: Vec<u8>)
    ensures
        bytes@.len() == amount,
{
    let mut v: Vec<u8> = Vec::new();
    for n in 0..amount
        invariant
            v@.len() == n,
    {
        v.push(random_u8());
    }
    v
}

impl Token {
    /// Mints a token for a user: a fresh identity and a fresh random value.
    pub fn new(user_id: Uuid) -> (token: Token)
        ensures
            token.user_id == user_id,
            is_token_value(token.value@),
            token.value@.len() == TOKEN_LEN,
    {
        let bytes = generate_random_u8s(TOKEN_BYTES);
        let random = base64_encode(bytes.as_slice());
        Token { id: fresh_uuid(), value: random, user_id }
    }

    /// Starts the issue of a token to a user. The caller inserts the
    /// candidate into the store and resolves the issue with the answer.
    pub fn create(user: &User) -> (issue: TokenIssue)
        ensures
            !issue.retried(),
            issue.candidate().user_id == user.id,
            is_token_value(issue.candidate().value@),
            issue.candidate().value@.len() == TOKEN_LEN,
    {
        TokenIssue { candidate: Token::new(user.id), retried: false }
    }
}

impl TokenIssue {
    /// The token that the caller is to insert.
    pub closed spec fn candidate(self) -> Token {
        self.candidate
    }

    /// Whether this candidate replaces one whose value was taken.
    pub closed spec fn retried(self) -> bool {
        self.retried
    }

    /// The token that the caller is to insert.
    pub fn token(&self) -> (token: &Token)
        ensures
            *token == self.candidate(),
    {
        &self.candidate
    }

    /// Whether this candidate replaces one whose value was taken.
    pub fn is_retry(&self) -> (retried: bool)
        ensures
            retried == self.retried(),
    {
        self.retried
    }

    /// Takes the store's answer to the insertion of the candidate. A stored
    /// candidate is issued as it is. A collision on the first candidate gives
    /// a second one for the same user; a collision on the second, and any
    /// other failure of the store, fail the issue.
    pub fn resolve(self, outcome: InsertOutcome) -> (step: IssueStep)
        ensures
            match outcome {
                InsertOutcome::Ack => step == IssueStep::Issued(self.candidate()),
                InsertOutcome::UniqueViolation => if self.retried() {
                    step == IssueStep::Failed
                } else {
                    &&& step matches IssueStep::Retry(next)
                    &&& next.retried()
                    &&& next.candidate().user_id == self.candidate().user_id
                    &&& is_token_value(next.candidate().value@)
                    &&& next.candidate().value@.len() == TOKEN_LEN
                },
                InsertOutcome::Failed => step == IssueStep::Failed,
            },
    {
        match outcome {
            InsertOutcome::Ack => IssueStep::Issued(self.candidate),
            InsertOutcome::UniqueViolation => {
                if self.retried {
                    IssueStep::Failed
                } else {
                    IssueStep::Retry(
                        TokenIssue { candidate: Token::new(self.candidate.user_id), retried: true },
                    )
                }
            },
            InsertOutcome::Failed => IssueStep::Failed,
        }
    }
}

} // verus!
