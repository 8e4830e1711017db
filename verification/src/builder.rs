//! A typed builder for a YouTrack client: the base url and the token are
//! set in that order, and only a builder holding both can be turned into a
//! client.
use vstd::prelude::*;

verus! {

/// A builder slot not yet filled.
pub struct Missing;

/// A builder slot holding a value.
pub struct IsSet<T>(T);

/// Builds a YouTrack client from a base url and a permanent token.
pub struct YoutrackClientBuilder<B, T> {
    base_url: B,
    token: T,
}

impl YoutrackClientBuilder<Missing, Missing> {
    /// The builder with neither the base url nor the token set.
    pub closed spec fn empty() -> Self {
        YoutrackClientBuilder { base_url: Missing, token: Missing }
    }

    /// An empty builder.
    pub fn new() -> (r: Self)
        ensures
            r == Self::empty(),
    {
        YoutrackClientBuilder { base_url: Missing, token: Missing }
    }

    /// Sets the base url of the YouTrack instance.
    pub fn with_base_url(self, base_url: &str) -> (r: YoutrackClientBuilder<IsSet<String>, Missing>)
        ensures
            r.base_url_text() == base_url@,
    {
        YoutrackClientBuilder { base_url: IsSet(base_url.to_owned()), token: Missing }
    }
}

impl Default for YoutrackClientBuilder<Missing, Missing> {
    /// An empty builder, the same as [`YoutrackClientBuilder::new`].
    fn default() -> (r: Self)
        ensures
            r == Self::empty(),
    {
        YoutrackClientBuilder { base_url: Missing, token: Missing }
    }
}

impl<T> YoutrackClientBuilder<IsSet<String>, T> {
    /// The base url held by the builder.
    pub closed spec fn base_url_text(self) -> Seq<char> {
        self.base_url.0@
    }
}

impl YoutrackClientBuilder<IsSet<String>, Missing> {
    /// Sets the permanent token; the base url stays as it was.
    pub fn with_token(self, token: &str) -> (r: YoutrackClientBuilder<IsSet<String>, IsSet<String>>)
        ensures
            r.base_url_text() == self.base_url_text(),
            r.token_text() == token@,
    {
        YoutrackClientBuilder { base_url: self.base_url, token: IsSet(token.to_owned()) }
    }
}

impl YoutrackClientBuilder<IsSet<String>, IsSet<String>> {
    /// The token held by the builder.
    pub closed spec fn token_text(self) -> Seq<char> {
        self.token.0@
    }

    /// The base url and the token, to build the client from.
    pub fn into_parts(self) -> (r: (String, String))
        ensures
            r.0@ == self.base_url_text(),
            r.1@ == self.token_text(),
    {
        (self.base_url.0, self.token.0)
    }
}

} // verus!
