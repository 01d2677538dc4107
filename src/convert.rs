//! Pairing CSV header names with the fields of a record.
use vstd::prelude::*;

verus! {

/// The (header, field) pairs of a record: one per position that both the
/// header row and the record have.
pub open spec fn paired(headers: Seq<String>, fields: Seq<String>) -> Seq<(Seq<char>, Seq<char>)> {
    let n = if headers.len() <= fields.len() {
        headers.len()
    } else {
        fields.len()
    };
    Seq::new(n, |i: int| (headers[i]@, fields[i]@))
}

/// Pairs each header name with the field at its position; surplus headers
/// or fields are left out.
pub fn pair_fields(headers: &Vec<String>, fields: &Vec<String>) -> (r: Vec<(String, String)>)
    ensures
        r@.len() == paired(headers@, fields@).len(),
        forall|i: int|
            0 <= i < r@.len() ==> (#[trigger] r@[i]).0@ == paired(headers@, fields@)[i].0 && r@[i].1@
                == paired(headers@, fields@)[i].1,
{
    let n = if headers.len() <= fields.len() {
        headers.len()
    } else {
        fields.len()
    };
    let mut r: Vec<(String, String)> = Vec::new();
    let mut i: usize = 0;
    while i < n
        invariant
            n <= headers@.len(),
            n <= fields@.len(),
            n == paired(headers@, fields@).len(),
            i <= n,
            r@.len() == i,
            forall|j: int|
                0 <= j < i ==> (#[trigger] r@[j]).0@ == headers@[j]@ && r@[j].1@ == fields@[j]@,
        decreases n - i,
    {
        let h = headers[i].as_str().to_owned();
        let f = fields[i].as_str().to_owned();
        r.push((h, f));
        i = i + 1;
    }
    r
}

} // verus!
