//! Selection of the platform entry that applies to a target.
use vstd::prelude::*;
use crate::config::PlatformConfig;

verus! {

/// What `target_spec::eval` gives for an expression and a target triple:
/// `None` for an error, `Some(None)` when the expression cannot be decided,
/// `Some(Some(b))` when it decides `b`.
pub uninterp spec fn target_spec_outcome(spec: Seq<char>, target: Seq<char>) -> Option<Option<bool>>;

#[verifier::external_type_specification]
#[verifier::external_body]
pub struct ExTargetSpecError(target_spec::Error);

/// Relies on `target_spec::eval`: it parses the expression and the triple
/// and evaluates one against the other, a function of the two texts alone.
#[verifier::external_body]
fn eval_target_spec(spec: &str, target: &str) -> (r: Result<Option<bool>, target_spec::Error>)
    ensures
        r is Ok <==> target_spec_outcome(spec@, target@) is Some,
        r matches Ok(v) ==> target_spec_outcome(spec@, target@) == Some(v),
{
    target_spec::eval(spec, target)
}

/// Why no platform entry is selected.
#[derive(Debug, Clone, Copy, PartialEq, Eq)]
pub enum PlatformError {
    /// The expression of the entry at this index, or the target, does not parse.
    Unparsable(usize),
    /// The expression of the entry at this index cannot be decided for the target.
    Undecidable(usize),
    /// Every expression evaluated to false.
    NoMatch,
}

/// The selection made from the evaluations `outcomes`, scanning from
/// index `i`: the first match, or the first failure before any match.
pub open spec fn selection_from(outcomes: Seq<Option<Option<bool>>>, i: int) -> Result<usize, PlatformError>
    decreases outcomes.len() - i,
{
    if i < 0 || i >= outcomes.len() {
        Err(PlatformError::NoMatch)
    } else {
        match outcomes[i] {
            None => Err(PlatformError::Unparsable(i as usize)),
            Some(None) => Err(PlatformError::Undecidable(i as usize)),
            Some(Some(true)) => Ok(i as usize),
            Some(Some(false)) => selection_from(outcomes, i + 1),
        }
    }
}

/// The selection made from the evaluations of all entries, in order.
pub open spec fn selection(outcomes: Seq<Option<Option<bool>>>) -> Result<usize, PlatformError> {
    selection_from(outcomes, 0)
}

/// The evaluations of every entry's expression against `target`.
pub open spec fn outcomes_for(platforms: Seq<PlatformConfig>, target: Seq<char>) -> Seq<Option<Option<bool>>> {
    platforms.map_values(|p: PlatformConfig| target_spec_outcome(p.target_spec@, target))
}

/// Where every evaluation before `i` is a plain "no", scanning from `i`
/// selects what scanning from the start does.
proof fn lemma_skip_no_matches(outcomes: Seq<Option<Option<bool>>>, i: int)
    requires
        0 <= i <= outcomes.len(),
        forall|j: int| 0 <= j < i ==> outcomes[j] == Some(Some(false)),
    ensures
        selection(outcomes) == selection_from(outcomes, i),
    decreases i,
{
    if i > 0 {
        lemma_skip_no_matches(outcomes, i - 1);
    }
}

/// Selects from the evaluations of the entries' expressions, taken in order.
pub fn select_from_outcomes(outcomes: &Vec<Option<Option<bool>>>) -> (r: Result<usize, PlatformError>)
    ensures
        r == selection(outcomes@),
{
    let mut i: usize = 0;
    while i < outcomes.len()
        invariant
            0 <= i <= outcomes@.len(),
            forall|j: int| 0 <= j < i ==> outcomes@[j] == Some(Some(false)),
        decreases outcomes@.len() - i,
    {
        proof {
            lemma_skip_no_matches(outcomes@, i as int);
        }
        match outcomes[i] {
            None => return Err(PlatformError::Unparsable(i)),
            Some(None) => return Err(PlatformError::Undecidable(i)),
            Some(Some(true)) => return Ok(i),
            Some(Some(false)) => {},
        }
        i = i + 1;
    }
    proof {
        lemma_skip_no_matches(outcomes@, i as int);
    }
    Err(PlatformError::NoMatch)
}

/// The index of the first platform entry whose expression matches
/// `target`. An expression that does not parse or cannot be decided stops
/// the scan.
pub fn select_platform_index(platforms: &Vec<PlatformConfig>, target: &str) -> (r: Result<usize, PlatformError>)
    ensures
        r == selection(outcomes_for(platforms@, target@)),
        r matches Ok(i) ==> i < platforms@.len(),
{
    let ghost outcomes = outcomes_for(platforms@, target@);
    let mut i: usize = 0;
    while i < platforms.len()
        invariant
            0 <= i <= platforms@.len(),
            outcomes == outcomes_for(platforms@, target@),
            forall|j: int| 0 <= j < i ==> outcomes[j] == Some(Some(false)),
        decreases platforms@.len() - i,
    {
        proof {
            lemma_skip_no_matches(outcomes, i as int);
        }
        match eval_target_spec(platforms[i].target_spec.as_str(), target) {
            Err(_) => return Err(PlatformError::Unparsable(i)),
            Ok(None) => return Err(PlatformError::Undecidable(i)),
            Ok(Some(true)) => return Ok(i),
            Ok(Some(false)) => {},
        }
        i = i + 1;
    }
    proof {
        lemma_skip_no_matches(outcomes, i as int);
    }
    Err(PlatformError::NoMatch)
}

/// The first platform entry whose expression matches `target`.
pub fn select_platform<'a>(platforms: &'a Vec<PlatformConfig>, target: &str) -> (r: Result<&'a PlatformConfig, PlatformError>)
    ensures
        match selection(outcomes_for(platforms@, target@)) {
            Ok(i) => r matches Ok(p) && *p == platforms@[i as int],
            Err(e) => r == Err::<&PlatformConfig, PlatformError>(e),
        },
{
    match select_platform_index(platforms, target) {
        Ok(i) => Ok(&platforms[i]),
        Err(e) => Err(e),
    }
}

/// First match wins: when the entry at `i` matches and every entry before
/// it evaluated to false, that entry is selected, whatever follows it.
pub proof fn lemma_first_match_wins(outcomes: Seq<Option<Option<bool>>>, i: int)
    requires
        0 <= i < outcomes.len(),
        outcomes[i] == Some(Some(true)),
        forall|j: int| 0 <= j < i ==> outcomes[j] == Some(Some(false)),
    ensures
        selection(outcomes) == Ok::<usize, PlatformError>(i as usize),
{
    lemma_skip_no_matches(outcomes, i);
}

/// "No match" is reported exactly when every expression evaluated to
/// false; an expression that does not parse or cannot be decided is
/// reported as such, at its own index, and never as "no match".
pub proof fn lemma_no_match_distinct(outcomes: Seq<Option<Option<bool>>>)
    requires
        outcomes.len() <= usize::MAX,
    ensures
        selection(outcomes) == Err::<usize, PlatformError>(PlatformError::NoMatch) <==> forall|j: int|
            0 <= j < outcomes.len() ==> outcomes[j] == Some(Some(false)),
        selection(outcomes) matches Err(PlatformError::Unparsable(i)) ==> i < outcomes.len()
            && outcomes[i as int] is None,
        selection(outcomes) matches Err(PlatformError::Undecidable(i)) ==> i < outcomes.len()
            && outcomes[i as int] == Some(None::<bool>),
{
    lemma_selection_cases(outcomes, 0);
}

proof fn lemma_selection_cases(outcomes: Seq<Option<Option<bool>>>, k: int)
    requires
        0 <= k <= outcomes.len() <= usize::MAX,
    ensures
        selection_from(outcomes, k) == Err::<usize, PlatformError>(PlatformError::NoMatch) <==> forall|j: int|
            k <= j < outcomes.len() ==> outcomes[j] == Some(Some(false)),
        selection_from(outcomes, k) matches Err(PlatformError::Unparsable(i)) ==> k <= i < outcomes.len()
            && outcomes[i as int] is None,
        selection_from(outcomes, k) matches Err(PlatformError::Undecidable(i)) ==> k <= i < outcomes.len()
            && outcomes[i as int] == Some(None::<bool>),
    decreases outcomes.len() - k,
{
    if k < outcomes.len() {
        lemma_selection_cases(outcomes, k + 1);
        if outcomes[k] != Some(Some(false)) {
            assert(!(forall|j: int| k <= j < outcomes.len() ==> outcomes[j] == Some(Some(false))));
        }
    }
}

} // verus!
