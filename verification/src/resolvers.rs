//! Resolvers: the ways to find the date of a file, and the order among them.
//!
//! A resolver looks at one thing: what the file carries inside, or what its
//! name says. The chain asks them in a fixed order and takes the first date
//! that one of them finds; those that come after are not asked at all.
//!
//! Reading a date out of a file name is guesswork that the library leaves to
//! its caller. So the chain does not run the resolvers itself: it says which
//! one to consult next, and the caller reports what that one found.

use crate::paths::file_name;
use crate::paths::file_name_of;
use crate::timestamp::Timestamp;
use crate::validation::validate_reading;
use crate::validation::validated_reading;
use crate::validation::PlausibleYears;
use vstd::prelude::*;

verus! {

/// A way to find the date of a file.
#[derive(Clone, Copy, Debug, PartialEq, Eq, Structural)]
pub enum Resolver {
    /// The date that the file carries inside; see `read_exif_date`.
    Metadata,
    /// The date that the name of the file shows; see `read_filename`.
    Filename,
}

/// What the chain says after the outcomes it has been told so far.
#[derive(Clone, Copy, Debug, PartialEq, Eq, Structural)]
pub enum ChainStep {
    /// No date yet: consult this resolver and come back with its outcome.
    Consult { resolver: Resolver },
    /// A resolver found this date; no other is consulted.
    Resolved { date: Timestamp },
    /// Every resolver was consulted and none found a date.
    Unresolved,
}

/// Resolvers in the order in which they are consulted.
#[derive(Debug)]
pub struct ResolverChain {
    pub resolvers: Vec<Resolver>,
}

impl View for ResolverChain {
    type V = Seq<Resolver>;

    open spec fn view(&self) -> Seq<Resolver> {
        self.resolvers@
    }
}

/// The order that is used where no other is given: what the file carries
/// inside comes before what its name shows.
pub open spec fn standard_order() -> Seq<Resolver> {
    seq![Resolver::Metadata, Resolver::Filename]
}

/// The first date among `outcomes`, which are in the order of consultation.
pub open spec fn first_success(outcomes: Seq<Option<Timestamp>>) -> Option<Timestamp>
    decreases outcomes.len(),
{
    if outcomes.len() == 0 {
        None
    } else if outcomes[0] is Some {
        outcomes[0]
    } else {
        first_success(outcomes.drop_first())
    }
}

/// What the chain says after `outcomes`: the first date among them if there
/// is one, else the next resolver of `order`, else that there is no date.
pub open spec fn chain_step(order: Seq<Resolver>, outcomes: Seq<Option<Timestamp>>) -> ChainStep {
    match first_success(outcomes) {
        Some(date) => ChainStep::Resolved { date },
        None => if outcomes.len() < order.len() {
            ChainStep::Consult { resolver: order[outcomes.len() as int] }
        } else {
            ChainStep::Unresolved
        },
    }
}

/// The date that the chain arrives at when it goes on from `outcomes` and
/// each resolver, once consulted, finds what `finds` says.
pub open spec fn chain_result(
    order: Seq<Resolver>,
    finds: spec_fn(Resolver) -> Option<Timestamp>,
    outcomes: Seq<Option<Timestamp>>,
) -> Option<Timestamp>
    decreases order.len() - outcomes.len(),
{
    match chain_step(order, outcomes) {
        ChainStep::Resolved { date } => Some(date),
        ChainStep::Unresolved => None,
        ChainStep::Consult { resolver } => chain_result(
            order,
            finds,
            outcomes.push(finds(resolver)),
        ),
    }
}

/// The date that the name of a file shows: what a heuristic reader made of
/// the name, kept if its year lies in `years`; nothing where the path ends in
/// no file name.
pub open spec fn filename_date(
    file_path: Seq<char>,
    reading: Option<Timestamp>,
    years: PlausibleYears,
) -> Option<Timestamp> {
    if file_name_of(file_path) is Some {
        validated_reading(reading, years)
    } else {
        None
    }
}

/// The first date is that of the earliest outcome that is one, and there is
/// none only where no outcome is a date.
pub proof fn lemma_first_success_is_earliest(outcomes: Seq<Option<Timestamp>>)
    ensures
        match first_success(outcomes) {
            Some(date) => exists|at: int|
                0 <= at < outcomes.len() && #[trigger] outcomes[at] == Some(date) && forall|
                    before: int,
                | 0 <= before < at ==> outcomes[before] is None,
            None => forall|at: int| 0 <= at < outcomes.len() ==> outcomes[at] is None,
        },
    decreases outcomes.len(),
{
    if outcomes.len() > 0 && outcomes[0] is None {
        let rest = outcomes.drop_first();
        lemma_first_success_is_earliest(rest);
        match first_success(rest) {
            Some(date) => {
                let at = choose|at: int|
                    0 <= at < rest.len() && #[trigger] rest[at] == Some(date) && forall|
                        before: int,
                    | 0 <= before < at ==> rest[before] is None;
                assert(outcomes[at + 1] == Some(date));
                assert forall|before: int| 0 <= before < at + 1 implies outcomes[before]
                    is None by {
                    if before > 0 {
                        assert(outcomes[before] == rest[before - 1]);
                    }
                }
            },
            None => {
                assert forall|at: int| 0 <= at < outcomes.len() implies outcomes[at] is None by {
                    if at > 0 {
                        assert(outcomes[at] == rest[at - 1]);
                    }
                }
            },
        }
    } else if outcomes.len() > 0 {
        assert(outcomes[0] == Some(outcomes[0]->Some_0));
    }
}

/// Outcomes that hold no date change nothing for what comes after them.
pub proof fn lemma_first_success_skips_failures(
    failures: Seq<Option<Timestamp>>,
    rest: Seq<Option<Timestamp>>,
)
    requires
        forall|at: int| 0 <= at < failures.len() ==> failures[at] is None,
    ensures
        first_success(failures + rest) == first_success(rest),
    decreases failures.len(),
{
    if failures.len() == 0 {
        assert(failures + rest == rest);
    } else {
        assert((failures + rest)[0] == failures[0]);
        assert((failures + rest).drop_first() == failures.drop_first() + rest);
        lemma_first_success_skips_failures(failures.drop_first(), rest);
    }
}

/// A date, once found, stays the result whatever is reported after it.
pub proof fn lemma_first_success_is_final(
    outcomes: Seq<Option<Timestamp>>,
    later: Seq<Option<Timestamp>>,
)
    requires
        first_success(outcomes) is Some,
    ensures
        first_success(outcomes + later) == first_success(outcomes),
    decreases outcomes.len(),
{
    assert((outcomes + later)[0] == outcomes[0]);
    if outcomes[0] is None {
        assert((outcomes + later).drop_first() == outcomes.drop_first() + later);
        lemma_first_success_is_final(outcomes.drop_first(), later);
    }
}

/// What every resolver of `order` finds, in that order.
pub open spec fn findings(order: Seq<Resolver>, finds: spec_fn(Resolver) -> Option<Timestamp>) -> Seq<
    Option<Timestamp>,
> {
    Seq::new(order.len(), |at: int| finds(order[at]))
}

/// Going on from the outcomes of the first resolvers, the chain arrives at
/// the first date among what all of them find.
pub proof fn lemma_chain_goes_on_to_first_success(
    order: Seq<Resolver>,
    finds: spec_fn(Resolver) -> Option<Timestamp>,
    outcomes: Seq<Option<Timestamp>>,
)
    requires
        outcomes.len() <= order.len(),
        outcomes == findings(order, finds).take(outcomes.len() as int),
    ensures
        chain_result(order, finds, outcomes) == first_success(findings(order, finds)),
    decreases order.len() - outcomes.len(),
{
    let all = findings(order, finds);
    let rest = all.skip(outcomes.len() as int);
    assert(outcomes + rest == all);
    if first_success(outcomes) is Some {
        lemma_first_success_is_final(outcomes, rest);
    } else if outcomes.len() < order.len() {
        let next = outcomes.push(finds(order[outcomes.len() as int]));
        assert(next == all.take(next.len() as int));
        lemma_chain_goes_on_to_first_success(order, finds, next);
    } else {
        assert(outcomes == all);
    }
}

/// Order decides: whatever the resolvers are, the chain arrives at what the
/// earliest of them that finds a date has found, and at nothing only where
/// none of them finds one. A resolver added behind the others changes
/// nothing for a file that one of them can date.
pub proof fn lemma_chain_takes_first_success(
    order: Seq<Resolver>,
    finds: spec_fn(Resolver) -> Option<Timestamp>,
)
    ensures
        chain_result(order, finds, Seq::empty()) == first_success(findings(order, finds)),
        match chain_result(order, finds, Seq::empty()) {
            Some(date) => exists|at: int|
                0 <= at < order.len() && #[trigger] finds(order[at]) == Some(date) && forall|
                    before: int,
                | 0 <= before < at ==> finds(#[trigger] order[before]) is None,
            None => forall|at: int| 0 <= at < order.len() ==> finds(#[trigger] order[at]) is None,
        },
{
    let all = findings(order, finds);
    assert(all.take(0) == Seq::<Option<Timestamp>>::empty());
    lemma_chain_goes_on_to_first_success(order, finds, Seq::empty());
    lemma_first_success_is_earliest(all);
    match first_success(all) {
        Some(date) => {
            let at = choose|at: int|
                0 <= at < all.len() && #[trigger] all[at] == Some(date) && forall|before: int|
                    0 <= before < at ==> all[before] is None;
            assert(finds(order[at]) == Some(date));
            assert forall|before: int| 0 <= before < at implies finds(#[trigger] order[before])
                is None by {
                assert(all[before] is None);
            }
        },
        None => {
            assert forall|at: int| 0 <= at < order.len() implies finds(#[trigger] order[at])
                is None by {
                assert(all[at] is None);
            }
        },
    }
}

/// Precedence: where the file carries a date inside, the standard chain
/// arrives at exactly that date, whatever the name of the file would show;
/// the name is not even consulted.
pub proof fn lemma_metadata_takes_precedence(finds: spec_fn(Resolver) -> Option<Timestamp>)
    requires
        finds(Resolver::Metadata) is Some,
    ensures
        chain_result(standard_order(), finds, Seq::empty()) == finds(Resolver::Metadata),
        chain_step(standard_order(), Seq::empty()) == (ChainStep::Consult {
            resolver: Resolver::Metadata,
        }),
        chain_step(standard_order(), seq![finds(Resolver::Metadata)]) == (ChainStep::Resolved {
            date: finds(Resolver::Metadata)->Some_0,
        }),
{
    let order = standard_order();
    let none: Seq<Option<Timestamp>> = Seq::empty();
    let one = none.push(finds(Resolver::Metadata));
    assert(one == seq![finds(Resolver::Metadata)]);
    assert(first_success(none) is None);
    assert(first_success(one) == finds(Resolver::Metadata));
    assert(chain_step(order, none) == ChainStep::Consult { resolver: Resolver::Metadata });
    assert(chain_result(order, finds, one) == finds(Resolver::Metadata));
}

/// Fallback: where the file carries no date inside, the standard chain
/// arrives at exactly what the name of the file shows.
pub proof fn lemma_filename_is_the_fallback(finds: spec_fn(Resolver) -> Option<Timestamp>)
    requires
        finds(Resolver::Metadata) is None,
    ensures
        chain_result(standard_order(), finds, Seq::empty()) == finds(Resolver::Filename),
        chain_step(standard_order(), seq![finds(Resolver::Metadata)]) == (ChainStep::Consult {
            resolver: Resolver::Filename,
        }),
{
    let order = standard_order();
    let none: Seq<Option<Timestamp>> = Seq::empty();
    let one = none.push(finds(Resolver::Metadata));
    let two = one.push(finds(Resolver::Filename));
    assert(one == seq![finds(Resolver::Metadata)]);
    assert(first_success(none) is None);
    assert(one.drop_first() == none);
    assert(first_success(one) is None);
    let last = two.drop_first();
    assert(last == seq![finds(Resolver::Filename)]);
    assert(last.drop_first() == none);
    assert(first_success(last) == finds(Resolver::Filename));
    assert(first_success(two) == finds(Resolver::Filename));
    assert(chain_step(order, none) == ChainStep::Consult { resolver: Resolver::Metadata });
    assert(chain_step(order, one) == ChainStep::Consult { resolver: Resolver::Filename });
    assert(chain_result(order, finds, two) == finds(Resolver::Filename));
    assert(chain_result(order, finds, one) == chain_result(order, finds, two));
}

impl ResolverChain {
    /// The chain that consults `resolvers` in this order.
    pub fn new(resolvers: Vec<Resolver>) -> (chain: ResolverChain)
        ensures
            chain@ == resolvers@,
    {
        ResolverChain { resolvers }
    }

    /// The standard chain: what the file carries inside, then its name.
    pub fn standard() -> (chain: ResolverChain)
        ensures
            chain@ == standard_order(),
    {
        let mut resolvers: Vec<Resolver> = Vec::new();
        resolvers.push(Resolver::Metadata);
        resolvers.push(Resolver::Filename);
        assert(resolvers@ == standard_order());
        ResolverChain { resolvers }
    }
}

/// Says how the search for the date of a file goes on.
///
/// `outcomes` holds what the resolvers that were consulted so far have found,
/// in the order of `chain`. A caller starts with no outcomes, consults the
/// resolver that is named, adds its outcome and asks again, until the answer
/// is a date or that there is none.
pub fn get_date_for_file(chain: &ResolverChain, outcomes: &Vec<Option<Timestamp>>) -> (step:
    ChainStep)
    ensures
        step == chain_step(chain@, outcomes@),
{
    let mut at: usize = 0;
    while at < outcomes.len()
        invariant
            at <= outcomes.len(),
            forall|before: int| 0 <= before < at ==> outcomes@[before] is None,
        decreases outcomes.len() - at,
    {
        match outcomes[at] {
            Some(date) => {
                proof {
                    lemma_first_success_skips_failures(
                        outcomes@.take(at as int),
                        outcomes@.skip(at as int),
                    );
                    assert(outcomes@.take(at as int) + outcomes@.skip(at as int) == outcomes@);
                }
                return ChainStep::Resolved { date };
            },
            None => {},
        }
        at = at + 1;
    }
    proof {
        lemma_first_success_skips_failures(outcomes@, Seq::empty());
        assert(outcomes@ + Seq::<Option<Timestamp>>::empty() == outcomes@);
    }
    if at < chain.resolvers.len() {
        ChainStep::Consult { resolver: chain.resolvers[at] }
    } else {
        ChainStep::Unresolved
    }
}

/// Resolves the date of a file from its name. `reading` is what a heuristic
/// reader made of the file name that `file_path` ends in; it is kept if its
/// year lies in `years`. A path that ends in no file name has no date.
pub fn read_filename(file_path: &str, reading: Option<Timestamp>, years: &PlausibleYears) -> (date:
    Option<Timestamp>)
    ensures
        date == filename_date(file_path@, reading, *years),
{
    match file_name(file_path) {
        Some(_) => validate_reading(reading, years),
        None => None,
    }
}

} // verus!
