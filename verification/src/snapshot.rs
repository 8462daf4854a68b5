//! Building a validator-set snapshot: convert each listed validator through
//! the identity-conversion capability, keep the pairs whose conversion
//! succeeded, and preserve the registry's order. Validators whose conversion
//! yields `None` are dropped silently, not recorded as tombstones.

use vstd::prelude::*;

use crate::identity::{FullIdentification, IdentityConverter, ValidatorId};

verus! {

/// The snapshot built from `ids` under converter `c`: each identifier whose
/// conversion yields an identification contributes one pair, in the order of
/// `ids`; the others are dropped.
pub open spec fn snapshot_of<C: IdentityConverter>(
    c: &C,
    ids: Seq<ValidatorId>,
) -> Seq<(ValidatorId, FullIdentification)>
    decreases ids.len(),
{
    if ids.len() == 0 {
        Seq::empty()
    } else {
        let init = snapshot_of(c, ids.drop_last());
        match c.spec_convert(ids.last()) {
            Some(full) => init.push((ids.last(), full)),
            None => init,
        }
    }
}

/// A snapshot has at most one pair per listed identifier.
pub proof fn lemma_snapshot_len<C: IdentityConverter>(c: &C, ids: Seq<ValidatorId>)
    ensures
        snapshot_of(c, ids).len() <= ids.len(),
    decreases ids.len(),
{
    if ids.len() > 0 {
        lemma_snapshot_len(c, ids.drop_last());
    }
}

/// Filtering law: when the conversion yields `None` for every listed
/// identifier, the snapshot is the empty sequence.
pub proof fn lemma_snapshot_empty_when_all_absent<C: IdentityConverter>(
    c: &C,
    ids: Seq<ValidatorId>,
)
    requires
        forall|k: int| 0 <= k < ids.len() ==> c.spec_convert(#[trigger] ids[k]) is None,
    ensures
        snapshot_of(c, ids) == Seq::<(ValidatorId, FullIdentification)>::empty(),
    decreases ids.len(),
{
    if ids.len() > 0 {
        assert(c.spec_convert(ids.last()) is None);
        lemma_snapshot_empty_when_all_absent(c, ids.drop_last());
    }
}

/// Order preservation: the identifiers of the snapshot's pairs are exactly
/// the listed identifiers with a successful conversion, filtered in place
/// and never reordered.
pub proof fn lemma_snapshot_order<C: IdentityConverter>(c: &C, ids: Seq<ValidatorId>)
    ensures
        snapshot_of(c, ids).map_values(|p: (ValidatorId, FullIdentification)| p.0)
            == ids.filter(|id: ValidatorId| c.spec_convert(id) is Some),
    decreases ids.len(),
{
    reveal(Seq::filter);
    let fst = |p: (ValidatorId, FullIdentification)| p.0;
    let kept = |id: ValidatorId| c.spec_convert(id) is Some;
    if ids.len() == 0 {
        assert(snapshot_of(c, ids).map_values(fst) =~= ids.filter(kept));
    } else {
        lemma_snapshot_order(c, ids.drop_last());
        match c.spec_convert(ids.last()) {
            Some(full) => {
                assert(snapshot_of(c, ids).map_values(fst) =~= snapshot_of(
                    c,
                    ids.drop_last(),
                ).map_values(fst).push(ids.last()));
            },
            None => {},
        }
    }
}

/// Determinism in the conversion: two converters that agree pointwise build
/// the same snapshot from the same identifier list.
pub proof fn lemma_snapshot_converter_agreement<C1: IdentityConverter, C2: IdentityConverter>(
    c1: &C1,
    c2: &C2,
    ids: Seq<ValidatorId>,
)
    requires
        forall|id: ValidatorId| c1.spec_convert(id) == c2.spec_convert(id),
    ensures
        snapshot_of(c1, ids) == snapshot_of(c2, ids),
    decreases ids.len(),
{
    if ids.len() > 0 {
        lemma_snapshot_converter_agreement(c1, c2, ids.drop_last());
    }
}

/// Builds the snapshot for `validators` by converting each identifier in
/// order and keeping the successful pairs.
pub fn build_snapshot<C: IdentityConverter>(converter: &C, validators: &Vec<ValidatorId>) -> (r:
    Vec<(ValidatorId, FullIdentification)>)
    ensures
        r@ == snapshot_of(converter, validators@),
{
    let mut r: Vec<(ValidatorId, FullIdentification)> = Vec::new();
    let mut j: usize = 0;
    proof {
        assert(validators@.take(0) =~= Seq::<ValidatorId>::empty());
    }
    while j < validators.len()
        invariant
            j <= validators@.len(),
            r@ == snapshot_of(converter, validators@.take(j as int)),
        decreases validators@.len() - j,
    {
        let id = validators[j];
        match converter.convert(&id) {
            Some(full) => {
                r.push((id, full));
            },
            None => {},
        }
        proof {
            let taken = validators@.take(j as int + 1);
            assert(taken.drop_last() =~= validators@.take(j as int));
            assert(taken.last() == validators@[j as int]);
        }
        j = j + 1;
    }
    proof {
        assert(validators@.take(validators@.len() as int) =~= validators@);
    }
    r
}

} // verus!
