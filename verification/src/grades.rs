//! The fixed schema of 13 canonical grade buckets, and the mapping from an
//! observed grade label to its bucket. The out-of-schema label "A+" is a known
//! source anomaly and is folded into the "A" bucket; any other label outside
//! the schema has no bucket.

use vstd::prelude::*;

verus! {

/// How many grade buckets an aggregated record carries.
pub const NUM_GRADES: usize = 13;

/// The 13 canonical grade labels, in the fixed output column order.
pub open spec fn canonical_labels() -> Seq<Seq<char>> {
    seq![
        "A"@,
        "A-"@,
        "B+"@,
        "B"@,
        "B-"@,
        "C+"@,
        "C"@,
        "C-"@,
        "D+"@,
        "D"@,
        "D-"@,
        "F"@,
        "Other"@,
    ]
}

/// The label of one bucket.
pub open spec fn grade_label(i: int) -> Seq<char> {
    canonical_labels()[i]
}

/// The bucket an observed grade label is counted in: each canonical label
/// maps to its own bucket, the anomalous label "A+" maps to the "A" bucket,
/// and anything else is unrecognized.
pub open spec fn bucket_of(grade: Seq<char>) -> Option<int> {
    if grade == "A+"@ {
        Some(0int)
    } else if grade == "A"@ {
        Some(0int)
    } else if grade == "A-"@ {
        Some(1int)
    } else if grade == "B+"@ {
        Some(2int)
    } else if grade == "B"@ {
        Some(3int)
    } else if grade == "B-"@ {
        Some(4int)
    } else if grade == "C+"@ {
        Some(5int)
    } else if grade == "C"@ {
        Some(6int)
    } else if grade == "C-"@ {
        Some(7int)
    } else if grade == "D+"@ {
        Some(8int)
    } else if grade == "D"@ {
        Some(9int)
    } else if grade == "D-"@ {
        Some(10int)
    } else if grade == "F"@ {
        Some(11int)
    } else if grade == "Other"@ {
        Some(12int)
    } else {
        None
    }
}

/// The canonical labels as strings, in output column order.
pub fn grade_labels() -> (v: Vec<String>)
    ensures
        v@.map_values(|s: String| s@) == canonical_labels(),
        v@.len() == 13,
{
    let mut v: Vec<String> = Vec::new();
    v.push("A".to_owned());
    v.push("A-".to_owned());
    v.push("B+".to_owned());
    v.push("B".to_owned());
    v.push("B-".to_owned());
    v.push("C+".to_owned());
    v.push("C".to_owned());
    v.push("C-".to_owned());
    v.push("D+".to_owned());
    v.push("D".to_owned());
    v.push("D-".to_owned());
    v.push("F".to_owned());
    v.push("Other".to_owned());
    proof {
        assert(v@.map_values(|s: String| s@) =~~= canonical_labels());
    }
    v
}

/// Finds the bucket of an observed grade label.
pub fn bucket_index(grade: &str) -> (r: Option<usize>)
    ensures
        match r {
            Some(b) => b < 13 && bucket_of(grade@) == Some(b as int),
            None => bucket_of(grade@) is None,
        },
{
    let g = grade.to_owned();
    if g == "A+".to_owned() {
        Some(0)
    } else if g == "A".to_owned() {
        Some(0)
    } else if g == "A-".to_owned() {
        Some(1)
    } else if g == "B+".to_owned() {
        Some(2)
    } else if g == "B".to_owned() {
        Some(3)
    } else if g == "B-".to_owned() {
        Some(4)
    } else if g == "C+".to_owned() {
        Some(5)
    } else if g == "C".to_owned() {
        Some(6)
    } else if g == "C-".to_owned() {
        Some(7)
    } else if g == "D+".to_owned() {
        Some(8)
    } else if g == "D".to_owned() {
        Some(9)
    } else if g == "D-".to_owned() {
        Some(10)
    } else if g == "F".to_owned() {
        Some(11)
    } else if g == "Other".to_owned() {
        Some(12)
    } else {
        None
    }
}

} // verus!
