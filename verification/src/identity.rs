//! Validator identities and the pluggable identity-conversion capability.
//!
//! A [`ValidatorId`] is the bare handle under which the session registry
//! lists a validator. A [`FullIdentification`] is the richer identity record
//! (stake/exposure data) attached to a validator for one session. The
//! conversion from one to the other is deployment-specific, so the publisher
//! consumes it through the [`IdentityConverter`] capability: `None` means the
//! validator is excluded from the published set for this session.

use vstd::prelude::*;

verus! {

/// An opaque, comparable, copyable handle identifying a validator account.
#[derive(Clone, Copy, PartialEq, Eq, Structural, Debug)]
pub struct ValidatorId {
    pub raw: u64,
}

/// The richer identity record associated with a validator for one session:
/// its total stake backing and the validator's own share of it.
#[derive(Clone, Copy, PartialEq, Eq, Structural, Debug)]
pub struct FullIdentification {
    pub total_stake: u64,
    pub own_stake: u64,
}

/// The identity-conversion capability: maps a validator handle to its full
/// identification for the current state, or `None` if the validator has no
/// full identification (it is then excluded from the published snapshot).
pub trait IdentityConverter {
    /// What the conversion returns for each handle.
    spec fn spec_convert(&self, id: ValidatorId) -> Option<FullIdentification>;

    /// Converts one validator handle; `None` means "exclude".
    fn convert(&self, id: &ValidatorId) -> (r: Option<FullIdentification>)
        ensures
            r == self.spec_convert(*id),
    ;
}

/// The first identification paired with `id` in `entries`, or `None`.
pub open spec fn table_lookup(
    entries: Seq<(ValidatorId, FullIdentification)>,
    id: ValidatorId,
) -> Option<FullIdentification>
    decreases entries.len(),
{
    if entries.len() == 0 {
        None
    } else if entries[0].0 == id {
        Some(entries[0].1)
    } else {
        table_lookup(entries.drop_first(), id)
    }
}

/// An identity converter backed by a finite lookup table: a handle converts
/// to the identification it is paired with, and handles that appear in no
/// pair convert to `None`.
pub struct TableConverter {
    pub entries: Vec<(ValidatorId, FullIdentification)>,
}

impl IdentityConverter for TableConverter {
    open spec fn spec_convert(&self, id: ValidatorId) -> Option<FullIdentification> {
        table_lookup(self.entries@, id)
    }

    fn convert(&self, id: &ValidatorId) -> (r: Option<FullIdentification>) {
        let mut j: usize = 0;
        proof {
            assert(self.entries@.skip(0) =~= self.entries@);
        }
        while j < self.entries.len()
            invariant
                j <= self.entries@.len(),
                table_lookup(self.entries@, *id) == table_lookup(
                    self.entries@.skip(j as int),
                    *id,
                ),
            decreases self.entries@.len() - j,
        {
            let (candidate, full) = self.entries[j];
            if candidate.raw == id.raw {
                proof {
                    assert(candidate == *id);
                    assert(self.entries@.skip(j as int)[0] == self.entries@[j as int]);
                }
                return Some(full);
            }
            proof {
                assert(self.entries@.skip(j as int).drop_first() =~= self.entries@.skip(
                    j as int + 1,
                ));
                assert(self.entries@.skip(j as int)[0] == self.entries@[j as int]);
            }
            j = j + 1;
        }
        proof {
            assert(self.entries@.skip(j as int).len() == 0);
        }
        None
    }
}

} // verus!
