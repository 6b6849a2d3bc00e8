//! The bidirectional name/index lookups derived from a header row.

use vstd::prelude::*;
use crate::text::texts;

verus! {

/// The two listings as mathematical sequences of pairs.
pub struct LookupTables {
    pub by_name: Seq<(Seq<char>, int)>,
    pub by_index: Seq<(int, Seq<char>)>,
}

/// The listings that belong to a header row: entry `i` of the first is
/// `(headers[i], i)`, entry `i` of the second is `(i, headers[i])`.
pub open spec fn lookups_of(headers: Seq<Seq<char>>) -> LookupTables {
    LookupTables {
        by_name: Seq::new(headers.len(), |i: int| (headers[i], i)),
        by_index: Seq::new(headers.len(), |i: int| (i, headers[i])),
    }
}

/// Both listings are as long as the header row, and entry `i` of each pairs
/// the `i`-th header with `i`; this holds for repeated names as well.
pub proof fn lookups_entry(headers: Seq<Seq<char>>, i: int)
    requires
        0 <= i < headers.len(),
    ensures
        lookups_of(headers).by_name.len() == headers.len(),
        lookups_of(headers).by_index.len() == headers.len(),
        lookups_of(headers).by_name[i] == (headers[i], i),
        lookups_of(headers).by_index[i] == (i, headers[i]),
{
}

/// Two parallel listings of a header row: each column name with its index,
/// and each index with its column name, both in worksheet order.
///
/// Repeated names are kept as separate entries.
#[derive(Debug)]
pub struct HeaderLookups {
    pub column_name_lookup: Vec<(String, usize)>,
    pub index_position_lookup: Vec<(usize, String)>,
}

impl View for HeaderLookups {
    type V = LookupTables;

    open spec fn view(&self) -> LookupTables {
        LookupTables {
            by_name: Seq::new(
                self.column_name_lookup@.len(),
                |i: int| (self.column_name_lookup@[i].0@, self.column_name_lookup@[i].1 as int),
            ),
            by_index: Seq::new(
                self.index_position_lookup@.len(),
                |i: int|
                    (self.index_position_lookup@[i].0 as int, self.index_position_lookup@[i].1@),
            ),
        }
    }
}

impl HeaderLookups {
    /// Builds the lookups of a header row.
    pub fn from_headers(headers: &Vec<String>) -> (r: HeaderLookups)
        ensures
            r@ == lookups_of(texts(headers@)),
    {
        let mut by_name: Vec<(String, usize)> = Vec::new();
        let mut by_index: Vec<(usize, String)> = Vec::new();
        let mut i: usize = 0;
        while i < headers.len()
            invariant
                i <= headers@.len(),
                by_name@.len() == i,
                by_index@.len() == i,
                forall|j: int|
                    0 <= j < i ==> (#[trigger] by_name@[j]).0@ == headers@[j]@ && by_name@[j].1
                        == j,
                forall|j: int|
                    0 <= j < i ==> (#[trigger] by_index@[j]).0 == j && by_index@[j].1@
                        == headers@[j]@,
            decreases headers@.len() - i,
        {
            by_name.push((headers[i].clone(), i));
            by_index.push((i, headers[i].clone()));
            i += 1;
        }
        let r = HeaderLookups { column_name_lookup: by_name, index_position_lookup: by_index };
        proof {
            let want = lookups_of(texts(headers@));
            assert(r@.by_name =~= want.by_name);
            assert(r@.by_index =~= want.by_index);
        }
        r
    }
}

} // verus!
