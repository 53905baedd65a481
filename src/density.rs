use vstd::prelude::*;

verus! {

/// Cell `i` holds the most points of all cells, and every later cell holds
/// strictly fewer: on ties the last of the densest cells is chosen.
pub open spec fn is_densest_cell(cells: Seq<Vec<usize>>, i: int) -> bool {
    &&& 0 <= i < cells.len()
    &&& forall|j: int| 0 <= j < cells.len() ==> #[trigger] cells[j]@.len() <= cells[i]@.len()
    &&& forall|j: int| i < j < cells.len() ==> #[trigger] cells[j]@.len() < cells[i]@.len()
}

/// Highest density cluster index: the index of the densest cell of `igrid`
/// (the last one on ties), or `None` when even that cell holds fewer than
/// `min_density` points.
pub fn hdci(igrid: &Vec<Vec<usize>>, min_density: usize) -> (r: Option<usize>)
    requires
        igrid.len() > 0,
    ensures
        match r {
            Some(i) => is_densest_cell(igrid@, i as int) && igrid@[i as int]@.len() >= min_density,
            None => forall|j: int|
                0 <= j < igrid.len() ==> #[trigger] igrid@[j]@.len() < min_density,
        },
{
    let mut best: usize = 0;
    let mut j: usize = 1;
    while j < igrid.len()
        invariant
            1 <= j <= igrid.len(),
            is_densest_cell(igrid@.subrange(0, j as int), best as int),
        decreases igrid.len() - j,
    {
        if !(igrid[best].len() > igrid[j].len()) {
            best = j;
        }
        j = j + 1;
    }
    assert(igrid@.subrange(0, igrid.len() as int) =~= igrid@);
    if igrid[best].len() < min_density {
        None
    } else {
        Some(best)
    }
}

} // verus!
