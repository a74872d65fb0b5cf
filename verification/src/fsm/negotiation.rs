//! Choosing the attestation mechanisms of a session.

use crate::fsm::{FiniteStateMachine, RatNegotiationError};
use crate::messages::suite_view;
use vstd::prelude::*;

verus! {

/// The first mechanism of `primary`, from position `from` on, that also
/// occurs in `secondary`.
pub open spec fn first_match_from(primary: Seq<Seq<char>>, secondary: Seq<Seq<char>>, from: int) -> Option<
    Seq<char>,
>
    decreases primary.len() - from,
{
    if from < 0 || from >= primary.len() {
        None
    } else if secondary.contains(primary[from]) {
        Some(primary[from])
    } else {
        first_match_from(primary, secondary, from + 1)
    }
}

/// The first mechanism of `primary` that also occurs in `secondary`: the order
/// of `primary` is the order of preference.
pub open spec fn first_match(primary: Seq<Seq<char>>, secondary: Seq<Seq<char>>) -> Option<Seq<char>> {
    first_match_from(primary, secondary, 0)
}

/// The mechanism by which this endpoint proves itself: the first that the
/// peer expects and this endpoint supports.
pub open spec fn prover_mechanism(peer_expected: Seq<Seq<char>>, own_supported: Seq<Seq<char>>) -> Option<
    Seq<char>,
> {
    first_match(peer_expected, own_supported)
}

/// The mechanism by which this endpoint verifies the peer: the first that
/// this endpoint expects and the peer supports.
pub open spec fn verifier_mechanism(peer_supported: Seq<Seq<char>>, own_expected: Seq<Seq<char>>) -> Option<
    Seq<char>,
> {
    first_match(own_expected, peer_supported)
}

/// What a negotiation returns for a match or the lack of one.
pub open spec fn negotiated(choice: Option<Seq<char>>, result: Result<String, RatNegotiationError>) -> bool {
    match choice {
        Some(mechanism) => result is Ok && result->Ok_0@ == mechanism,
        None => result == Err::<String, RatNegotiationError>(RatNegotiationError::NoRatMechanismMatch),
    }
}

/// A search from `from` finds the mechanism at the first position, at or
/// after `from`, whose mechanism occurs in `secondary`, and finds nothing
/// exactly where there is no such position.
pub proof fn lemma_first_match_from(primary: Seq<Seq<char>>, secondary: Seq<Seq<char>>, from: int)
    requires
        0 <= from,
    ensures
        match first_match_from(primary, secondary, from) {
            Some(mechanism) => exists|i: int|
                from <= i < primary.len() && primary[i] == mechanism && secondary.contains(primary[i]) && (
                forall|j: int| from <= j < i ==> !secondary.contains(#[trigger] primary[j])),
            None => forall|i: int| from <= i < primary.len() ==> !secondary.contains(#[trigger] primary[i]),
        },
    decreases primary.len() - from,
{
    if from >= primary.len() {
    } else if secondary.contains(primary[from]) {
        assert(from <= from < primary.len() && primary[from] == primary[from] && secondary.contains(
            primary[from],
        ));
    } else {
        lemma_first_match_from(primary, secondary, from + 1);
        match first_match_from(primary, secondary, from + 1) {
            Some(mechanism) => {
                let i = choose|i: int|
                    from + 1 <= i < primary.len() && primary[i] == mechanism && secondary.contains(primary[i])
                        && (forall|j: int| from + 1 <= j < i ==> !secondary.contains(#[trigger] primary[j]));
                assert forall|j: int| from <= j < i implies !secondary.contains(#[trigger] primary[j]) by {
                    if j == from {
                    }
                }
                assert(from <= i < primary.len() && primary[i] == mechanism && secondary.contains(primary[i]));
            },
            None => {
                assert forall|i: int| from <= i < primary.len() implies !secondary.contains(
                    #[trigger] primary[i],
                ) by {
                    if i == from {
                    }
                }
            },
        }
    }
}

/// Negotiation is decided by the order of the primary list: the result is the
/// element of `primary` at the least position whose element occurs in
/// `secondary`, and there is none exactly where the two lists share nothing.
pub proof fn lemma_negotiation_prefers_primary_order(primary: Seq<Seq<char>>, secondary: Seq<Seq<char>>)
    ensures
        match first_match(primary, secondary) {
            Some(mechanism) => exists|i: int|
                0 <= i < primary.len() && primary[i] == mechanism && secondary.contains(primary[i]) && (
                forall|j: int| 0 <= j < i ==> !secondary.contains(#[trigger] primary[j])),
            None => forall|i: int| 0 <= i < primary.len() ==> !secondary.contains(#[trigger] primary[i]),
        },
        primary.len() == 0 || secondary.len() == 0 ==> first_match(primary, secondary) is None,
{
    lemma_first_match_from(primary, secondary, 0);
    if secondary.len() == 0 && primary.len() > 0 {
        if first_match(primary, secondary) is Some {
            let mechanism = first_match(primary, secondary)->Some_0;
            let i = choose|i: int|
                0 <= i < primary.len() && primary[i] == mechanism && secondary.contains(primary[i]) && (
                forall|j: int| 0 <= j < i ==> !secondary.contains(#[trigger] primary[j]));
            assert(secondary.contains(primary[i]));
            assert(false);
        }
    }
}

/// Whether a list of mechanisms holds the given one.
fn suite_contains(suite: &[String], mechanism: &String) -> (found: bool)
    ensures
        found == suite_view(suite@).contains(mechanism@),
{
    let mut i: usize = 0;
    while i < suite.len()
        invariant
            i <= suite.len(),
            forall|j: int| 0 <= j < i ==> suite_view(suite@)[j] != mechanism@,
        decreases suite.len() - i,
    {
        if suite[i] == *mechanism {
            proof {
                assert(suite_view(suite@)[i as int] == mechanism@);
            }
            return true;
        }
        i += 1;
    }
    false
}

impl FiniteStateMachine {
    /// The first mechanism of `primary` that `secondary` holds too.
    pub fn calculate_rat_algorithms(primary: &[String], secondary: &[String]) -> (result: Result<
        String,
        RatNegotiationError,
    >)
        ensures
            negotiated(first_match(suite_view(primary@), suite_view(secondary@)), result),
    {
        let ghost p = suite_view(primary@);
        let ghost s = suite_view(secondary@);
        let mut i: usize = 0;
        while i < primary.len()
            invariant
                i <= primary.len(),
                p == suite_view(primary@),
                s == suite_view(secondary@),
                first_match(p, s) == first_match_from(p, s, i as int),
            decreases primary.len() - i,
        {
            if suite_contains(secondary, &primary[i]) {
                return Ok(primary[i].clone());
            }
            i += 1;
        }
        Err(RatNegotiationError::NoRatMechanismMatch)
    }

    /// The mechanism by which this endpoint verifies the peer.
    pub fn calculate_rat_verifier_mechanism(
        peer_rat_supported_suites: &[String],
        own_rat_expected_suites: &[String],
    ) -> (result: Result<String, RatNegotiationError>)
        ensures
            negotiated(
                verifier_mechanism(suite_view(peer_rat_supported_suites@), suite_view(own_rat_expected_suites@)),
                result,
            ),
    {
        proof {
            lemma_negotiation_prefers_primary_order(
                suite_view(own_rat_expected_suites@),
                suite_view(peer_rat_supported_suites@),
            );
        }
        if peer_rat_supported_suites.len() == 0 {
            return Err(RatNegotiationError::NoRatMechanismMatch);
        }
        if own_rat_expected_suites.len() == 0 {
            return Err(RatNegotiationError::NoRatMechanismMatch);
        }
        FiniteStateMachine::calculate_rat_algorithms(own_rat_expected_suites, peer_rat_supported_suites)
    }

    /// The mechanism by which this endpoint proves itself to the peer.
    pub fn calculate_rat_prover_mechanism(
        peer_rat_expected_suites: &[String],
        own_rat_supported_suites: &[String],
    ) -> (result: Result<String, RatNegotiationError>)
        ensures
            negotiated(
                prover_mechanism(suite_view(peer_rat_expected_suites@), suite_view(own_rat_supported_suites@)),
                result,
            ),
    {
        proof {
            lemma_negotiation_prefers_primary_order(
                suite_view(peer_rat_expected_suites@),
                suite_view(own_rat_supported_suites@),
            );
        }
        if peer_rat_expected_suites.len() == 0 {
            return Err(RatNegotiationError::NoRatMechanismMatch);
        }
        if own_rat_supported_suites.len() == 0 {
            return Err(RatNegotiationError::NoRatMechanismMatch);
        }
        FiniteStateMachine::calculate_rat_algorithms(peer_rat_expected_suites, own_rat_supported_suites)
    }
}

} // verus!
