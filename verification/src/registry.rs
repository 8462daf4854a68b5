//! The session registry capability: supplies the ordered list of current
//! validators and the current session index. The publisher consumes it as an
//! explicit dependency rather than ambient state, so it can be exercised in
//! isolation with a fixed registry.

use vstd::prelude::*;

use crate::identity::ValidatorId;
use crate::keys::SessionIndex;

verus! {

/// The session registry: the authority on the current validator set and the
/// current session index.
pub trait SessionRegistry {
    /// The ordered validator list the registry currently reports.
    spec fn spec_validators(&self) -> Seq<ValidatorId>;

    /// The session index the registry currently reports.
    spec fn spec_current_index(&self) -> SessionIndex;

    /// Returns the ordered list of current validator identifiers.
    fn validators(&self) -> (r: Vec<ValidatorId>)
        ensures
            r@ == self.spec_validators(),
    ;

    /// Returns the current session index.
    fn current_index(&self) -> (r: SessionIndex)
        ensures
            r == self.spec_current_index(),
    ;
}

/// A registry with a fixed validator list and session index.
pub struct FixedRegistry {
    pub validator_list: Vec<ValidatorId>,
    pub index: SessionIndex,
}

impl SessionRegistry for FixedRegistry {
    open spec fn spec_validators(&self) -> Seq<ValidatorId> {
        self.validator_list@
    }

    open spec fn spec_current_index(&self) -> SessionIndex {
        self.index
    }

    fn validators(&self) -> (r: Vec<ValidatorId>) {
        let mut r: Vec<ValidatorId> = Vec::new();
        let mut j: usize = 0;
        while j < self.validator_list.len()
            invariant
                j <= self.validator_list@.len(),
                r@ == self.validator_list@.take(j as int),
            decreases self.validator_list@.len() - j,
        {
            r.push(self.validator_list[j]);
            j = j + 1;
            proof {
                assert(r@ =~= self.validator_list@.take(j as int));
            }
        }
        proof {
            assert(self.validator_list@.take(self.validator_list@.len() as int)
                =~= self.validator_list@);
        }
        r
    }

    fn current_index(&self) -> (r: SessionIndex) {
        self.index
    }
}

} // verus!
