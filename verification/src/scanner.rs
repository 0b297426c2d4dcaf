//! The cell scanner: which input cells carry the type hash that the script
//! argument names, and whether exactly one does.

use crate::bytes::bytes_equal;
use crate::error::Error;
use vstd::prelude::*;

verus! {

/// What a scan has found so far: no puppet cell, exactly one (with its
/// position among the inputs), or more than one.
#[derive(Clone, Copy, Debug, PartialEq, Eq)]
pub enum Tally {
    Zero,
    One(usize),
    Many,
}

/// The type hash of an input cell as a byte sequence; `None` for a cell
/// without a type script.
pub open spec fn type_hash_view(type_hash: Option<[u8; 32]>) -> Option<Seq<u8>> {
    match type_hash {
        Some(hash) => Some(hash@),
        None => None,
    }
}

/// The type hashes of the input cells, in order, as byte sequences.
pub open spec fn type_hashes_view(type_hashes: Seq<Option<[u8; 32]>>) -> Seq<Option<Seq<u8>>> {
    Seq::new(type_hashes.len(), |i: int| type_hash_view(type_hashes[i]))
}

/// Whether the input cell at position `i` is a puppet cell: it has a type
/// script, and the hash of that script is `arg`.
pub open spec fn is_puppet_at(arg: Seq<u8>, type_hashes: Seq<Option<Seq<u8>>>, i: int) -> bool {
    0 <= i < type_hashes.len() && type_hashes[i] == Some(arg)
}

/// No input cell is a puppet cell.
pub open spec fn no_puppet(arg: Seq<u8>, type_hashes: Seq<Option<Seq<u8>>>) -> bool {
    forall|i: int| !is_puppet_at(arg, type_hashes, i)
}

/// The input cell at position `i` is a puppet cell, and no other is.
pub open spec fn sole_puppet(arg: Seq<u8>, type_hashes: Seq<Option<Seq<u8>>>, i: int) -> bool {
    &&& is_puppet_at(arg, type_hashes, i)
    &&& forall|j: int| is_puppet_at(arg, type_hashes, j) ==> j == i
}

/// Two different input cells are puppet cells.
pub open spec fn several_puppets(arg: Seq<u8>, type_hashes: Seq<Option<Seq<u8>>>) -> bool {
    exists|i: int, j: int|
        i != j && is_puppet_at(arg, type_hashes, i) && is_puppet_at(arg, type_hashes, j)
}

/// The tally of a whole scan over `type_hashes`.
pub open spec fn tally(arg: Seq<u8>, type_hashes: Seq<Option<Seq<u8>>>) -> Tally {
    if no_puppet(arg, type_hashes) {
        Tally::Zero
    } else if several_puppets(arg, type_hashes) {
        Tally::Many
    } else {
        Tally::One(choose|i: usize| is_puppet_at(arg, type_hashes, i as int))
    }
}

impl Tally {
    /// The tally after one more cell, at position `index`, has been looked at.
    pub open spec fn spec_observe(
        self,
        index: usize,
        type_hash: Option<Seq<u8>>,
        arg: Seq<u8>,
    ) -> Tally {
        if type_hash == Some(arg) {
            match self {
                Tally::Zero => Tally::One(index),
                _ => Tally::Many,
            }
        } else {
            self
        }
    }

    /// What a finished scan amounts to: the position of the one puppet
    /// cell, or the reason why there is no such position.
    pub open spec fn spec_outcome(self) -> Result<usize, Error> {
        match self {
            Tally::Zero => Err(Error::NoPuppetCellFound),
            Tally::One(index) => Ok(index),
            Tally::Many => Err(Error::RequiredOnlyOnePuppet),
        }
    }

    /// Takes one more cell into the tally: a cell without a type script, or
    /// with another type hash than `arg`, changes nothing.
    pub fn observe(self, index: usize, type_hash: &Option<[u8; 32]>, arg: &[u8; 32]) -> (next: Tally)
        ensures
            next == self.spec_observe(index, type_hash_view(*type_hash), arg@),
    {
        let matched = match type_hash {
            Some(hash) => bytes_equal(arg.as_slice(), hash.as_slice()),
            None => false,
        };
        if matched {
            match self {
                Tally::Zero => Tally::One(index),
                _ => Tally::Many,
            }
        } else {
            self
        }
    }

    /// Ends a scan: the position of the one puppet cell, or the failure.
    pub fn outcome(self) -> (found: Result<usize, Error>)
        ensures
            found == self.spec_outcome(),
    {
        match self {
            Tally::Zero => Err(Error::NoPuppetCellFound),
            Tally::One(index) => Ok(index),
            Tally::Many => Err(Error::RequiredOnlyOnePuppet),
        }
    }
}

/// What each value of a tally says of the cells it was taken over.
pub proof fn lemma_tally_meaning(arg: Seq<u8>, type_hashes: Seq<Option<Seq<u8>>>)
    requires
        type_hashes.len() <= usize::MAX,
    ensures
        tally(arg, type_hashes) == Tally::Zero <==> no_puppet(arg, type_hashes),
        tally(arg, type_hashes) == Tally::Many <==> several_puppets(arg, type_hashes),
        forall|i: usize|
            tally(arg, type_hashes) == Tally::One(i) <==> sole_puppet(arg, type_hashes, i as int),
{
    if !no_puppet(arg, type_hashes) && !several_puppets(arg, type_hashes) {
        let w = choose|w: int| is_puppet_at(arg, type_hashes, w);
        assert(is_puppet_at(arg, type_hashes, (w as usize) as int));
        let c = choose|i: usize| is_puppet_at(arg, type_hashes, i as int);
        assert(is_puppet_at(arg, type_hashes, c as int));
        assert forall|i: usize| sole_puppet(arg, type_hashes, i as int) implies i == c by {}
        assert forall|j: int| is_puppet_at(arg, type_hashes, j) implies j == c as int by {
            if j != c as int {
                assert(several_puppets(arg, type_hashes));
            }
        }
    } else if several_puppets(arg, type_hashes) {
        let (a, b) = choose|a: int, b: int|
            a != b && is_puppet_at(arg, type_hashes, a) && is_puppet_at(arg, type_hashes, b);
        assert forall|i: usize| !sole_puppet(arg, type_hashes, i as int) by {
            if sole_puppet(arg, type_hashes, i as int) {
                assert(a == i as int);
                assert(b == i as int);
            }
        }
    } else {
        assert forall|i: usize| !sole_puppet(arg, type_hashes, i as int) by {}
    }
}

/// A scan can be taken cell by cell: the tally over a sequence with one
/// more cell at its end is the tally over the sequence, with that cell
/// observed.
pub proof fn lemma_tally_push(
    arg: Seq<u8>,
    type_hashes: Seq<Option<Seq<u8>>>,
    type_hash: Option<Seq<u8>>,
)
    requires
        type_hashes.len() < usize::MAX,
    ensures
        tally(arg, type_hashes.push(type_hash)) == tally(arg, type_hashes).spec_observe(
            type_hashes.len() as usize,
            type_hash,
            arg,
        ),
{
    let longer = type_hashes.push(type_hash);
    let end = type_hashes.len() as int;
    assert forall|i: int| is_puppet_at(arg, longer, i) <==> (is_puppet_at(arg, type_hashes, i) || (
    i == end && type_hash == Some(arg))) by {}
    lemma_tally_meaning(arg, type_hashes);
    lemma_tally_meaning(arg, longer);
    match tally(arg, type_hashes) {
        Tally::Zero => {
            if type_hash == Some(arg) {
                assert(is_puppet_at(arg, longer, end));
                assert(sole_puppet(arg, longer, (end as usize) as int));
            } else {
                assert(no_puppet(arg, longer));
            }
        },
        Tally::One(i) => {
            assert(sole_puppet(arg, type_hashes, i as int));
            if type_hash == Some(arg) {
                assert(is_puppet_at(arg, longer, i as int));
                assert(is_puppet_at(arg, longer, end));
                assert(several_puppets(arg, longer));
            } else {
                assert(sole_puppet(arg, longer, i as int));
            }
        },
        Tally::Many => {
            let (a, b) = choose|a: int, b: int|
                a != b && is_puppet_at(arg, type_hashes, a) && is_puppet_at(arg, type_hashes, b);
            assert(is_puppet_at(arg, longer, a) && is_puppet_at(arg, longer, b));
            assert(several_puppets(arg, longer));
        },
    }
}

/// Scans the input cells for the puppet cell: the one cell whose type hash
/// is `arg`. Cells without a type script are passed over. With no such
/// cell the scan fails with `NoPuppetCellFound`, with two or more it fails
/// with `RequiredOnlyOnePuppet`.
pub fn scan_cells(arg: &[u8; 32], type_hashes: &Vec<Option<[u8; 32]>>) -> (found: Result<
    usize,
    Error,
>)
    ensures
        found == tally(arg@, type_hashes_view(type_hashes@)).spec_outcome(),
        found matches Ok(i) ==> sole_puppet(arg@, type_hashes_view(type_hashes@), i as int),
        found == Err::<usize, Error>(Error::NoPuppetCellFound) <==> no_puppet(
            arg@,
            type_hashes_view(type_hashes@),
        ),
        found == Err::<usize, Error>(Error::RequiredOnlyOnePuppet) <==> several_puppets(
            arg@,
            type_hashes_view(type_hashes@),
        ),
{
    let ghost all = type_hashes_view(type_hashes@);
    let mut seen = Tally::Zero;
    let mut index: usize = 0;
    proof {
        assert(all.take(0) =~= Seq::<Option<Seq<u8>>>::empty());
        assert(no_puppet(arg@, all.take(0)));
    }
    while index < type_hashes.len()
        invariant
            all == type_hashes_view(type_hashes@),
            index <= type_hashes@.len(),
            seen == tally(arg@, all.take(index as int)),
        decreases type_hashes@.len() - index,
    {
        proof {
            lemma_tally_push(arg@, all.take(index as int), all[index as int]);
            assert(all.take(index as int).push(all[index as int]) =~= all.take(index + 1));
        }
        seen = seen.observe(index, &type_hashes[index], arg);
        index += 1;
    }
    proof {
        assert(all.take(index as int) =~= all);
        lemma_tally_meaning(arg@, all);
    }
    seen.outcome()
}

} // verus!
