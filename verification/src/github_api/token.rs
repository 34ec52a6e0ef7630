//! The installation access token and the cell that shares it.
//!
//! A token carries no expiry. It counts as valid until a call made with it
//! is rejected; whoever sees that asks the cell to refresh, naming the token
//! it used. The cell refreshes only while that token is still the live one,
//! so callers that saw the same stale token cause one refresh between them.

use crate::error::Error;
use vstd::prelude::*;

verus! {

/// An opaque bearer credential. Two tokens are the same when their text is.
#[derive(Debug, PartialEq, Eq)]
pub struct AccessToken {
    value: String,
}

impl View for AccessToken {
    type V = Seq<char>;

    closed spec fn view(&self) -> Seq<char> {
        self.value@
    }
}

impl Clone for AccessToken {
    fn clone(&self) -> (copy: Self)
        ensures
            copy@ == self@,
    {
        AccessToken { value: self.value.clone() }
    }
}

impl AccessToken {
    /// Wraps the text of a credential.
    pub fn new(value: String) -> (token: Self)
        ensures
            token@ == value@,
    {
        AccessToken { value }
    }

    /// The text to present as the bearer credential.
    pub fn as_str(&self) -> (text: &str)
        ensures
            text@ == self@,
    {
        self.value.as_str()
    }

    /// Structural equality, on the text.
    pub fn same_as(&self, other: &AccessToken) -> (same: bool)
        ensures
            same == (self@ == other@),
    {
        self.value == other.value
    }
}

/// Whether a refresh asked for by a caller that used `observed` goes to the
/// network: only while `observed` is still the live token.
pub open spec fn refresh_bootstraps(live: Seq<char>, observed: Seq<char>) -> bool {
    live == observed
}

/// The live token after one compare-and-refresh. `fresh` is what the
/// bootstrap yields if it runs: a new token, or nothing when it fails.
pub open spec fn live_after_refresh(
    live: Seq<char>,
    observed: Seq<char>,
    fresh: Option<Seq<char>>,
) -> Seq<char> {
    if refresh_bootstraps(live, observed) {
        match fresh {
            Some(token) => token,
            None => live,
        }
    } else {
        live
    }
}

/// Whether `result` is a token, and one with this text.
pub open spec fn yields_token(result: Result<AccessToken, Error>, text: Seq<char>) -> bool {
    match result {
        Ok(token) => token@ == text,
        Err(_) => false,
    }
}

/// What a caller that holds the write access is to do.
#[derive(Debug, PartialEq, Eq)]
pub enum RefreshDecision {
    /// The observed token is still live: fetch a new one.
    Bootstrap,
    /// Somebody else refreshed in the meantime: use the live token.
    Reuse(AccessToken),
}

/// The single current installation token.
#[derive(Debug)]
pub struct TokenCell {
    live: AccessToken,
}

impl View for TokenCell {
    type V = Seq<char>;

    closed spec fn view(&self) -> Seq<char> {
        self.live@
    }
}

impl TokenCell {
    /// A cell that holds the token obtained at startup.
    pub fn new(initial: AccessToken) -> (cell: Self)
        ensures
            cell@ == initial@,
    {
        TokenCell { live: initial }
    }

    /// A snapshot of the live token, to use and to compare against later.
    pub fn current_token(&self) -> (token: AccessToken)
        ensures
            token@ == self@,
    {
        self.live.clone()
    }

    /// First half of a refresh, for callers that fetch the new token
    /// themselves while they hold exclusive access.
    pub fn begin_refresh(&self, observed: &AccessToken) -> (decision: RefreshDecision)
        ensures
            match decision {
                RefreshDecision::Bootstrap => refresh_bootstraps(self@, observed@),
                RefreshDecision::Reuse(token) => !refresh_bootstraps(self@, observed@) && token@
                    == self@,
            },
    {
        if self.live.same_as(observed) {
            RefreshDecision::Bootstrap
        } else {
            RefreshDecision::Reuse(self.live.clone())
        }
    }

    /// Second half of a refresh: a new token replaces the live one and is
    /// handed back; a failure is handed back and leaves the cell as it was.
    pub fn complete_refresh(&mut self, outcome: Result<AccessToken, Error>) -> (result: Result<
        AccessToken,
        Error,
    >)
        ensures
            match outcome {
                Ok(fresh) => final(self)@ == fresh@ && yields_token(result, fresh@),
                Err(error) => final(self)@ == old(self)@ && result == Err::<AccessToken, Error>(
                    error,
                ),
            },
    {
        match outcome {
            Ok(fresh) => {
                self.live = fresh.clone();
                Ok(fresh)
            },
            Err(error) => Err(error),
        }
    }

    /// Compare-and-refresh in one step. `bootstrap` runs only while
    /// `observed` is still the live token; otherwise the live token is
    /// returned and nothing else happens.
    pub fn refresh_if_still_current<F: FnOnce() -> Result<AccessToken, Error>>(
        &mut self,
        observed: &AccessToken,
        bootstrap: F,
    ) -> (result: Result<AccessToken, Error>)
        requires
            bootstrap.requires(()),
        ensures
            !refresh_bootstraps(old(self)@, observed@) ==> final(self)@ == old(self)@
                && yields_token(result, old(self)@),
            refresh_bootstraps(old(self)@, observed@) ==> exists|outcome: Result<AccessToken, Error>|
                #[trigger] bootstrap.ensures((), outcome) && match outcome {
                    Ok(fresh) => final(self)@ == live_after_refresh(
                        old(self)@,
                        observed@,
                        Some(fresh@),
                    ) && yields_token(result, fresh@),
                    Err(error) => final(self)@ == live_after_refresh(old(self)@, observed@, None)
                        && result == Err::<AccessToken, Error>(error),
                },
    {
        match self.begin_refresh(observed) {
            RefreshDecision::Reuse(token) => Ok(token),
            RefreshDecision::Bootstrap => {
                let outcome = bootstrap();
                self.complete_refresh(outcome)
            },
        }
    }
}

/// The live token after the first `callers` members of a herd have had
/// their turn, in the order in which they got exclusive access. All of them
/// observed the same token; `fresh(k)` is what a bootstrap by member `k`
/// yields.
pub open spec fn herd_live(
    live: Seq<char>,
    observed: Seq<char>,
    fresh: spec_fn(nat) -> Option<Seq<char>>,
    callers: nat,
) -> Seq<char>
    decreases callers,
{
    if callers == 0 {
        live
    } else {
        live_after_refresh(
            herd_live(live, observed, fresh, (callers - 1) as nat),
            observed,
            fresh((callers - 1) as nat),
        )
    }
}

/// How many of the first `callers` members of a herd went to the network.
pub open spec fn herd_bootstraps(
    live: Seq<char>,
    observed: Seq<char>,
    fresh: spec_fn(nat) -> Option<Seq<char>>,
    callers: nat,
) -> nat
    decreases callers,
{
    if callers == 0 {
        0
    } else {
        let earlier = herd_bootstraps(live, observed, fresh, (callers - 1) as nat);
        if refresh_bootstraps(herd_live(live, observed, fresh, (callers - 1) as nat), observed) {
            earlier + 1
        } else {
            earlier
        }
    }
}

/// No thundering herd: when any number of callers saw the same live token
/// go stale and all ask for a refresh, and the first bootstrap yields a
/// token that differs from the stale one, then exactly one of them goes to
/// the network and the live token, which each of them is handed, is the
/// renewed one.
pub proof fn lemma_no_thundering_herd(
    observed: Seq<char>,
    fresh: spec_fn(nat) -> Option<Seq<char>>,
    renewed: Seq<char>,
    callers: nat,
)
    requires
        callers >= 1,
        fresh(0) == Some(renewed),
        renewed != observed,
    ensures
        herd_bootstraps(observed, observed, fresh, callers) == 1,
        herd_live(observed, observed, fresh, callers) == renewed,
    decreases callers,
{
    if callers == 1 {
        assert(herd_live(observed, observed, fresh, 0) == observed);
        assert(herd_bootstraps(observed, observed, fresh, 0) == 0);
    } else {
        lemma_no_thundering_herd(observed, fresh, renewed, (callers - 1) as nat);
    }
}

/// A refresh that fails leaves the live token in place, stale as it is.
pub proof fn lemma_failed_refresh_keeps_token(live: Seq<char>, observed: Seq<char>)
    ensures
        live_after_refresh(live, observed, None) == live,
{
}

} // verus!
