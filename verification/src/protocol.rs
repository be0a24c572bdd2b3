//! Protocol identifiers and the market statistics the allocation is computed from.

use vstd::prelude::*;
use crate::amount::Amount;

verus! {

/// The stable name of a staking backend, such as `lido`. Its view is the name's text.
#[derive(Debug, PartialEq, Eq, Hash)]
pub struct ProtocolId {
    pub name: String,
}

impl View for ProtocolId {
    type V = Seq<char>;

    open spec fn view(&self) -> Seq<char> {
        self.name@
    }
}

impl Clone for ProtocolId {
    fn clone(&self) -> (r: ProtocolId)
        ensures
            r == *self,
    {
        ProtocolId { name: self.name.clone() }
    }
}

impl ProtocolId {
    /// The identifier with the given name.
    pub fn new(name: &str) -> (r: ProtocolId)
        ensures
            r@ == name@,
    {
        ProtocolId { name: name.to_owned() }
    }

    /// The name.
    pub fn as_str(&self) -> (r: &str)
        ensures
            r@ == self@,
    {
        self.name.as_str()
    }

    /// Whether both identifiers name the same protocol.
    pub fn same(&self, other: &ProtocolId) -> (r: bool)
        ensures
            r == (self@ == other@),
    {
        self.name == other.name
    }
}

/// One protocol's market statistics at a point in time.
///
/// `apy` and `risk_score` are fixed-point numbers in one common unit of the
/// caller's choosing; a lower risk score is safer. `tvl` is the total value locked.
#[derive(Clone, Copy, Debug, PartialEq, Eq, Structural)]
pub struct ProtocolStats {
    pub apy: u32,
    pub tvl: Amount,
    pub risk_score: u32,
}

/// How much yield counts for a protocol and how much risk counts against it.
/// Only the ratio of the two weights matters.
#[derive(Clone, Copy, Debug, PartialEq, Eq, Structural)]
pub struct ScoringWeights {
    pub apy_weight: u32,
    pub risk_weight: u32,
}

impl ScoringWeights {
    /// Seven parts yield against three parts risk.
    pub fn standard() -> (r: ScoringWeights)
        ensures
            r == (ScoringWeights { apy_weight: 7, risk_weight: 3 }),
    {
        ScoringWeights { apy_weight: 7, risk_weight: 3 }
    }
}

/// The statistics of one protocol, as one entry of a snapshot.
#[derive(Debug, PartialEq, Eq)]
pub struct ProtocolSnapshot {
    pub id: ProtocolId,
    pub stats: ProtocolStats,
}

/// What fetching one protocol's statistics gave.
#[derive(Debug, PartialEq, Eq)]
pub struct StatsFetch {
    pub id: ProtocolId,
    pub outcome: Result<ProtocolStats, crate::error::RestakingError>,
}

/// No two entries of the snapshot name the same protocol.
pub open spec fn distinct_ids(snapshot: Seq<ProtocolSnapshot>) -> bool {
    forall|i: int, j: int|
        #![trigger snapshot[i], snapshot[j]]
        0 <= i < j < snapshot.len() ==> snapshot[i].id@ != snapshot[j].id@
}

/// Whether some protocol occurs twice in the snapshot.
pub fn has_duplicate_id(snapshot: &Vec<ProtocolSnapshot>) -> (r: bool)
    ensures
        r == !distinct_ids(snapshot@),
{
    let n = snapshot.len();
    let mut j: usize = 0;
    while j < n
        invariant
            n == snapshot.len(),
            j <= n,
            forall|a: int, b: int|
                #![trigger snapshot@[a], snapshot@[b]]
                0 <= a < b < j ==> snapshot@[a].id@ != snapshot@[b].id@,
        decreases n - j,
    {
        let mut i: usize = 0;
        while i < j
            invariant
                n == snapshot.len(),
                i <= j < n,
                forall|a: int|
                    #![trigger snapshot@[a]]
                    0 <= a < i ==> snapshot@[a].id@ != snapshot@[j as int].id@,
            decreases j - i,
        {
            if snapshot[i].id.same(&snapshot[j].id) {
                return true;
            }
            i = i + 1;
        }
        j = j + 1;
    }
    false
}

} // verus!
