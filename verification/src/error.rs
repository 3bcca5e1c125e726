//! What can go wrong.

use vstd::prelude::*;

verus! {

/// An error of the application.
#[derive(Debug)]
pub enum Error {
    /// Reading or writing failed.
    Io(String),
    /// The terminal failed.
    Terminal(String),
    /// The exchange refused or failed.
    Api(String),
    /// The configuration is wrong.
    Config(String),
    /// A value could not be written or read back.
    Serialization(String),
    /// A message could not be handed on.
    Channel(String),
    /// The credentials were refused.
    Auth(String),
    /// The wallet could not sign.
    Wallet(String),
    /// An argument or the state it meets is wrong.
    InvalidInput(String),
    /// The network failed.
    Network(String),
    /// Too many requests; retry after so many seconds.
    RateLimited(u64),
    /// Anything else.
    Application(String),
}

/// The result of an operation that can fail with an [`Error`].
pub type Result<T> = std::result::Result<T, Error>;

impl Error {
    pub fn terminal(msg: &str) -> (r: Self)
        ensures
            r matches Error::Terminal(m) && m@ == msg@,
    {
        Error::Terminal(msg.to_owned())
    }

    pub fn config(msg: &str) -> (r: Self)
        ensures
            r matches Error::Config(m) && m@ == msg@,
    {
        Error::Config(msg.to_owned())
    }

    pub fn channel(msg: &str) -> (r: Self)
        ensures
            r matches Error::Channel(m) && m@ == msg@,
    {
        Error::Channel(msg.to_owned())
    }

    pub fn auth(msg: &str) -> (r: Self)
        ensures
            r matches Error::Auth(m) && m@ == msg@,
    {
        Error::Auth(msg.to_owned())
    }

    pub fn wallet(msg: &str) -> (r: Self)
        ensures
            r matches Error::Wallet(m) && m@ == msg@,
    {
        Error::Wallet(msg.to_owned())
    }

    pub fn invalid_input(msg: &str) -> (r: Self)
        ensures
            r matches Error::InvalidInput(m) && m@ == msg@,
    {
        Error::InvalidInput(msg.to_owned())
    }

    pub fn network(msg: &str) -> (r: Self)
        ensures
            r matches Error::Network(m) && m@ == msg@,
    {
        Error::Network(msg.to_owned())
    }

    pub fn application(msg: &str) -> (r: Self)
        ensures
            r matches Error::Application(m) && m@ == msg@,
    {
        Error::Application(msg.to_owned())
    }

    /// Whether trying again may help.
    pub open spec fn spec_is_recoverable(&self) -> bool {
        *self is Network || *self is RateLimited || *self is Channel
    }

    /// Whether trying again may help: the network failed, the rate limit
    /// was hit, or a message could not be handed on.
    #[verifier::when_used_as_spec(spec_is_recoverable)]
    pub fn is_recoverable(&self) -> (r: bool)
        ensures
            r == self.spec_is_recoverable(),
    {
        match self {
            Error::Network(_) | Error::RateLimited(_) | Error::Channel(_) => true,
            _ => false,
        }
    }

    /// Whether the error is an invalid input with the given message.
    pub open spec fn is_invalid_input(&self, msg: Seq<char>) -> bool {
        *self matches Error::InvalidInput(m) && m@ == msg
    }
}

} // verus!
