use vstd::prelude::*;

verus! {

/// Agent `i` of a network listens to agent `j` exactly when `j` is another agent
/// with strictly more expertise. `ranks` holds one entry per agent: an integer that
/// orders the agents as their expertise does, or `None` for an expertise that
/// compares with nothing (which then couples to no one, and no one to it).
pub open spec fn couples(ranks: Seq<Option<u64>>, i: int, j: int) -> bool {
    match (ranks[i], ranks[j]) {
        (Some(low), Some(high)) => i != j && high > low,
        _ => false,
    }
}

/// Coupling follows expertise: `i` listens to `j` exactly when they are two
/// different agents, both expertises are ordered, and `j`'s is strictly greater.
pub proof fn lemma_couples_toward_greater_expertise(ranks: Seq<Option<u64>>, i: int, j: int)
    ensures
        couples(ranks, i, j) <==> (i != j && ranks[i] is Some && ranks[j] is Some
            && ranks[i].unwrap() < ranks[j].unwrap()),
{
}

/// The coupling decision for one ordered pair of agents.
fn pair_couples(ranks: &Vec<Option<u64>>, i: usize, j: usize) -> (c: bool)
    requires
        i < ranks.len(),
        j < ranks.len(),
    ensures
        c == couples(ranks@, i as int, j as int),
        c == (i != j && ranks[i as int] is Some && ranks[j as int] is Some
            && ranks[i as int].unwrap() < ranks[j as int].unwrap()),
{
    match (ranks[i], ranks[j]) {
        (Some(low), Some(high)) => i != j && high > low,
        _ => false,
    }
}

/// Which agents of a network listen to which: row `i`, column `j` is `true`
/// exactly when agent `i` couples to agent `j`. The expertise of each agent is
/// given by an integer rank that orders the agents as their expertise does, or by
/// `None` where the expertise is unordered.
pub fn coupling_pattern(ranks: &Vec<Option<u64>>) -> (pattern: Vec<Vec<bool>>)
    ensures
        pattern.len() == ranks.len(),
        forall|i: int| 0 <= i < ranks.len() ==> #[trigger] pattern[i].len() == ranks.len(),
        forall|i: int, j: int|
            0 <= i < ranks.len() && 0 <= j < ranks.len() ==> #[trigger] pattern[i][j] == couples(
                ranks@,
                i,
                j,
            ),
        // an agent listens to another exactly when both expertises are ordered and
        // the other's is strictly greater
        forall|i: int, j: int|
            0 <= i < ranks.len() && 0 <= j < ranks.len() ==> (#[trigger] pattern[i][j] <==> (i
                != j && ranks[i] is Some && ranks[j] is Some && ranks[i].unwrap()
                < ranks[j].unwrap())),
        // no agent couples to itself
        forall|i: int| 0 <= i < ranks.len() ==> !#[trigger] pattern[i][i],
        // coupling runs one way only: from less to more expertise
        forall|i: int, j: int|
            0 <= i < ranks.len() && 0 <= j < ranks.len() && #[trigger] pattern[i][j]
                ==> !#[trigger] pattern[j][i],
        // agents of equal expertise do not couple
        forall|i: int, j: int|
            0 <= i < ranks.len() && 0 <= j < ranks.len() && ranks[i] == ranks[j]
                ==> !#[trigger] pattern[i][j],
        // whoever an agent listens to, it also listens to whoever they listen to
        forall|i: int, j: int, k: int|
            0 <= i < ranks.len() && 0 <= j < ranks.len() && 0 <= k < ranks.len()
                && #[trigger] pattern[i][j] && #[trigger] pattern[j][k] ==> pattern[i][k],
{
    let n = ranks.len();
    let mut pattern: Vec<Vec<bool>> = Vec::new();
    let mut i: usize = 0;
    while i < n
        invariant
            n == ranks.len(),
            i <= n,
            pattern.len() == i,
            forall|k: int| 0 <= k < i ==> #[trigger] pattern[k].len() == n,
            forall|k: int, j: int|
                0 <= k < i && 0 <= j < n ==> #[trigger] pattern[k][j] == couples(ranks@, k, j),
        decreases n - i,
    {
        let mut row: Vec<bool> = Vec::new();
        let mut j: usize = 0;
        while j < n
            invariant
                n == ranks.len(),
                i < n,
                j <= n,
                row.len() == j,
                forall|m: int| 0 <= m < j ==> #[trigger] row[m] == couples(ranks@, i as int, m),
            decreases n - j,
        {
            row.push(pair_couples(ranks, i, j));
            j = j + 1;
        }
        pattern.push(row);
        i = i + 1;
    }
    pattern
}

} // verus!
