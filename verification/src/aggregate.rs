//! The aggregator: folds raw (course, grade, count) rows into one record per
//! course-full-title, each carrying the fixed 13-bucket grade-count vector.
//! Descriptive fields are first-seen-wins; counts are summed per bucket, with
//! the anomalous "A+" label counted in the "A" bucket; an unrecognized label
//! fails the whole fold.

use vstd::prelude::*;
use crate::grades::{bucket_of, bucket_index, NUM_GRADES};
use crate::row::{ParseError, ParseErrorV, RawRow, RawRowV};

verus! {

/// One aggregated output record: the first-seen descriptive fields of a
/// course, plus one count per canonical grade bucket.
#[derive(Debug)]
pub struct AggregatedCourse {
    pub semester: String,
    pub section: u32,
    pub department: String,
    pub department_code: String,
    pub course_number: String,
    pub course_title: String,
    pub course_full_title: String,
    pub counts: Vec<u64>,
}

/// The mathematical model of an aggregated record.
pub struct CourseV {
    pub semester: Seq<char>,
    pub section: u32,
    pub department: Seq<char>,
    pub department_code: Seq<char>,
    pub course_number: Seq<char>,
    pub course_title: Seq<char>,
    pub course_full_title: Seq<char>,
    pub counts: Seq<int>,
}

impl View for AggregatedCourse {
    type V = CourseV;

    open spec fn view(&self) -> CourseV {
        CourseV {
            semester: self.semester@,
            section: self.section,
            department: self.department@,
            department_code: self.department_code@,
            course_number: self.course_number@,
            course_title: self.course_title@,
            course_full_title: self.course_full_title@,
            counts: self.counts@.map_values(|c: u64| c as int),
        }
    }
}

/// An aggregated record is well formed when it has exactly one count per
/// canonical bucket, none negative.
pub open spec fn wf_course(c: CourseV) -> bool {
    &&& c.counts.len() == 13
    &&& forall|b: int| 0 <= b < 13 ==> #[trigger] c.counts[b] >= 0
}

/// The models of a sequence of raw rows.
pub open spec fn rows_view(rows: Seq<RawRow>) -> Seq<RawRowV> {
    rows.map_values(|r: RawRow| r@)
}

/// The models of a sequence of aggregated records.
pub open spec fn courses_view(cs: Seq<AggregatedCourse>) -> Seq<CourseV> {
    cs.map_values(|c: AggregatedCourse| c@)
}

/// Index of the record grouped under a course-full-title, or -1 if absent.
pub open spec fn find_course(cs: Seq<CourseV>, key: Seq<char>) -> int
    decreases cs.len(),
{
    if cs.len() == 0 {
        -1
    } else if cs.first().course_full_title == key {
        0
    } else {
        let r = find_course(cs.drop_first(), key);
        if r < 0 {
            -1
        } else {
            r + 1
        }
    }
}

/// A zero count for every canonical bucket.
pub open spec fn zero_counts() -> Seq<int> {
    Seq::new(13, |b: int| 0)
}

/// A fresh record seeded from the first row seen for its course, with the
/// row's count folded into bucket `b`.
pub open spec fn seed_course(r: RawRowV, b: int) -> CourseV {
    CourseV {
        semester: r.semester,
        section: r.section,
        department: r.department,
        department_code: r.department_code,
        course_number: r.course_number,
        course_title: r.course_title,
        course_full_title: r.course_full_title,
        counts: zero_counts().update(b, r.grade_count as int),
    }
}

/// An existing record with `n` more in bucket `b`; descriptive fields are
/// never overwritten after first sight.
pub open spec fn bump_course(c: CourseV, b: int, n: int) -> CourseV {
    CourseV {
        semester: c.semester,
        section: c.section,
        department: c.department,
        department_code: c.department_code,
        course_number: c.course_number,
        course_title: c.course_title,
        course_full_title: c.course_full_title,
        counts: c.counts.update(b, c.counts[b] + n),
    }
}

/// Folding one recognized row into the grouping.
pub open spec fn apply_row(cs: Seq<CourseV>, r: RawRowV, b: int) -> Seq<CourseV> {
    let i = find_course(cs, r.course_full_title);
    if i >= 0 {
        cs.update(i, bump_course(cs[i], b, r.grade_count as int))
    } else {
        cs.push(seed_course(r, b))
    }
}

/// Whether every row's grade label has a bucket.
pub open spec fn all_known(rows: Seq<RawRowV>) -> bool {
    forall|i: int| 0 <= i < rows.len() ==> (bucket_of(#[trigger] rows[i].grade)) is Some
}

/// Index of the first row whose grade label has no bucket.
pub open spec fn first_unknown(rows: Seq<RawRowV>) -> int
    decreases rows.len(),
{
    if rows.len() == 0 {
        0
    } else if bucket_of(rows.first().grade) is None {
        0
    } else {
        1 + first_unknown(rows.drop_first())
    }
}

/// The grouping that folding a sequence of rows produces, in first-seen
/// course order. Rows without a bucket are skipped here; the executable
/// aggregator refuses such input instead.
pub open spec fn agg_rows(rows: Seq<RawRowV>) -> Seq<CourseV>
    decreases rows.len(),
{
    if rows.len() == 0 {
        Seq::empty()
    } else {
        let prev = agg_rows(rows.drop_last());
        match bucket_of(rows.last().grade) {
            None => prev,
            Some(b) => apply_row(prev, rows.last(), b),
        }
    }
}

/// `find_course` returns the first index holding the key, or -1 if no
/// record holds it.
pub proof fn lemma_find_course(cs: Seq<CourseV>, key: Seq<char>)
    ensures
        -1 <= find_course(cs, key) < cs.len(),
        find_course(cs, key) >= 0 ==> cs[find_course(cs, key)].course_full_title == key,
        find_course(cs, key) >= 0 ==> forall|j: int|
            0 <= j < find_course(cs, key) ==> (#[trigger] cs[j]).course_full_title != key,
        find_course(cs, key) == -1 ==> forall|j: int|
            0 <= j < cs.len() ==> (#[trigger] cs[j]).course_full_title != key,
    decreases cs.len(),
{
    if cs.len() == 0 {
    } else if cs.first().course_full_title == key {
    } else {
        lemma_find_course(cs.drop_first(), key);
        assert forall|j: int| 0 <= j < cs.len() implies cs[j] == if j == 0 {
            cs.first()
        } else {
            cs.drop_first()[j - 1]
        } by {}
    }
}

/// A first match at index `j` pins `find_course` to `j`.
pub proof fn lemma_find_course_at(cs: Seq<CourseV>, key: Seq<char>, j: int)
    requires
        0 <= j < cs.len(),
        cs[j].course_full_title == key,
        forall|j2: int| 0 <= j2 < j ==> (#[trigger] cs[j2]).course_full_title != key,
    ensures
        find_course(cs, key) == j,
{
    lemma_find_course(cs, key);
    let i = find_course(cs, key);
    if i == -1 {
        assert(cs[j].course_full_title != key);
    } else if i < j {
        assert(cs[i].course_full_title != key);
    } else if i > j {
        assert(cs[j].course_full_title != key);
    }
}

/// No match at all pins `find_course` to -1.
pub proof fn lemma_find_course_none(cs: Seq<CourseV>, key: Seq<char>)
    requires
        forall|j: int| 0 <= j < cs.len() ==> (#[trigger] cs[j]).course_full_title != key,
    ensures
        find_course(cs, key) == -1,
{
    lemma_find_course(cs, key);
    let i = find_course(cs, key);
    if i >= 0 {
        assert(cs[i].course_full_title != key);
    }
}

/// A recognized prefix followed by an unrecognized row at `k` pins
/// `first_unknown` to `k`.
pub proof fn lemma_first_unknown(rows: Seq<RawRowV>, k: int)
    requires
        0 <= k < rows.len(),
        bucket_of(rows[k].grade) is None,
        forall|i: int| 0 <= i < k ==> (bucket_of(#[trigger] rows[i].grade)) is Some,
    ensures
        first_unknown(rows) == k,
    decreases k,
{
    if k == 0 {
        assert(rows.first() == rows[0]);
    } else {
        assert(rows.first() == rows[0]);
        assert(bucket_of(rows[0].grade) is Some);
        assert forall|i: int| 0 <= i < k - 1 implies (bucket_of(
            #[trigger] rows.drop_first()[i].grade,
        )) is Some by {
            assert(rows.drop_first()[i] == rows[i + 1]);
        }
        assert(rows.drop_first()[k - 1] == rows[k]);
        lemma_first_unknown(rows.drop_first(), k - 1);
    }
}

/// Every record the fold produces is well formed: exactly 13 counts, none
/// negative.
pub proof fn lemma_agg_rows_wf(rows: Seq<RawRowV>)
    ensures
        forall|j: int| 0 <= j < agg_rows(rows).len() ==> wf_course(#[trigger] agg_rows(rows)[j]),
    decreases rows.len(),
{
    if rows.len() > 0 {
        lemma_agg_rows_wf(rows.drop_last());
        let prev = agg_rows(rows.drop_last());
        match bucket_of(rows.last().grade) {
            None => {},
            Some(b) => {
                lemma_find_course(prev, rows.last().course_full_title);
                let i = find_course(prev, rows.last().course_full_title);
                assert(0 <= b < 13);
                assert forall|j: int| 0 <= j < agg_rows(rows).len() implies wf_course(
                    #[trigger] agg_rows(rows)[j],
                ) by {
                    if i >= 0 {
                        if j != i {
                            assert(agg_rows(rows)[j] == prev[j]);
                        } else {
                            assert(wf_course(prev[i]));
                            let bumped = bump_course(prev[i], b, rows.last().grade_count as int);
                            assert(agg_rows(rows)[j] == bumped);
                            assert(forall|b2: int|
                                0 <= b2 < 13 ==> #[trigger] bumped.counts[b2] >= 0);
                        }
                    } else {
                        if j < prev.len() {
                            assert(agg_rows(rows)[j] == prev[j]);
                        } else {
                            let seeded = seed_course(rows.last(), b);
                            assert(agg_rows(rows)[j] == seeded);
                            assert(forall|b2: int|
                                0 <= b2 < 13 ==> #[trigger] seeded.counts[b2] >= 0);
                        }
                    }
                }
            },
        }
    }
}

/// What one row contributes to the count of bucket `b` of the course grouped
/// under `key`: its grade count if it belongs to that course and its grade
/// label maps to that bucket, else nothing.
pub open spec fn row_count_for(r: RawRowV, key: Seq<char>, b: int) -> int {
    if r.course_full_title == key && bucket_of(r.grade) == Some(b) {
        r.grade_count as int
    } else {
        0
    }
}

/// The total contributed to bucket `b` of the course grouped under `key`.
pub open spec fn total_count_for(rows: Seq<RawRowV>, key: Seq<char>, b: int) -> int
    decreases rows.len(),
{
    if rows.len() == 0 {
        0
    } else {
        total_count_for(rows.drop_last(), key, b) + row_count_for(rows.last(), key, b)
    }
}

/// Rows of other courses contribute nothing.
pub proof fn lemma_sum_no_key(rows: Seq<RawRowV>, key: Seq<char>, b: int)
    requires
        forall|j: int| 0 <= j < rows.len() ==> (#[trigger] rows[j]).course_full_title != key,
    ensures
        total_count_for(rows, key, b) == 0,
    decreases rows.len(),
{
    if rows.len() > 0 {
        assert forall|j: int| 0 <= j < rows.len() - 1 implies (#[trigger] rows.drop_last()[j]).course_full_title
            != key by {
            assert(rows.drop_last()[j] == rows[j]);
        }
        lemma_sum_no_key(rows.drop_last(), key, b);
        assert(rows.last() == rows[rows.len() - 1]);
    }
}

/// Taking one row out takes exactly its contribution out of the total.
pub proof fn lemma_sum_remove(rows: Seq<RawRowV>, j: int, key: Seq<char>, b: int)
    requires
        0 <= j < rows.len(),
    ensures
        total_count_for(rows, key, b) == total_count_for(rows.remove(j), key, b) + row_count_for(
            rows[j],
            key,
            b,
        ),
    decreases rows.len(),
{
    if j == rows.len() - 1 {
        assert(rows.remove(j) =~= rows.drop_last());
    } else {
        assert(rows.remove(j).drop_last() =~= rows.drop_last().remove(j));
        assert(rows.remove(j).last() == rows.last());
        lemma_sum_remove(rows.drop_last(), j, key, b);
    }
}

/// The central counting law: in the fold of a sequence of recognized rows, a
/// course appears exactly when some row carries its course-full-title, and
/// each of its buckets holds exactly the sum of the grade counts of the rows
/// whose label maps to that bucket (the anomalous "A+" counting towards "A").
pub proof fn lemma_aggregate_counts(rows: Seq<RawRowV>, key: Seq<char>, b: int)
    requires
        all_known(rows),
        0 <= b < 13,
    ensures
        ({
            let cs = agg_rows(rows);
            let i = find_course(cs, key);
            &&& (i >= 0 <==> exists|j: int|
                0 <= j < rows.len() && (#[trigger] rows[j]).course_full_title == key)
            &&& i >= 0 ==> wf_course(cs[i]) && cs[i].counts[b] == total_count_for(rows, key, b)
        }),
    decreases rows.len(),
{
    let cs = agg_rows(rows);
    let i = find_course(cs, key);
    if rows.len() == 0 {
    } else {
        let prev_rows = rows.drop_last();
        let r = rows.last();
        assert(r == rows[rows.len() - 1]);
        assert forall|j: int| 0 <= j < prev_rows.len() implies (bucket_of(
            #[trigger] prev_rows[j].grade,
        )) is Some by {
            assert(prev_rows[j] == rows[j]);
        }
        lemma_aggregate_counts(prev_rows, key, b);
        let prev = agg_rows(prev_rows);
        let rb = bucket_of(r.grade).unwrap();
        assert(bucket_of(r.grade) is Some);
        assert(cs == apply_row(prev, r, rb));
        lemma_find_course(prev, key);
        lemma_find_course(prev, r.course_full_title);
        let ip = find_course(prev, key);
        let ir = find_course(prev, r.course_full_title);
        let cnt = r.grade_count as int;
        assert(total_count_for(rows, key, b) == total_count_for(prev_rows, key, b) + row_count_for(r, key, b));
        if r.course_full_title == key {
            if ip >= 0 {
                let bumped = bump_course(prev[ip], rb, cnt);
                assert(cs == prev.update(ip, bumped));
                assert(cs[ip].course_full_title == key);
                assert forall|j: int| 0 <= j < ip implies (#[trigger] cs[j]).course_full_title
                    != key by {
                    assert(cs[j] == prev[j]);
                }
                lemma_find_course_at(cs, key, ip);
                assert(i == ip);
                assert(wf_course(prev[ip]));
                assert(wf_course(cs[i]));
                assert(cs[i].counts[b] == prev[ip].counts[b] + if b == rb {
                    cnt
                } else {
                    0
                });
            } else {
                assert(cs == prev.push(seed_course(r, rb)));
                let np = prev.len() as int;
                assert(cs[np].course_full_title == key);
                assert forall|j: int| 0 <= j < np implies (#[trigger] cs[j]).course_full_title
                    != key by {
                    assert(cs[j] == prev[j]);
                }
                lemma_find_course_at(cs, key, np);
                assert(i == np);
                assert(forall|j: int|
                    0 <= j < prev_rows.len() ==> (#[trigger] prev_rows[j]).course_full_title
                        != key);
                lemma_sum_no_key(prev_rows, key, b);
                assert(seed_course(r, rb).counts =~= zero_counts().update(rb, cnt));
                assert(wf_course(cs[i]));
                assert(cs[i].counts[b] == if b == rb {
                    cnt
                } else {
                    0
                });
            }
        } else {
            assert(row_count_for(r, key, b) == 0);
            if ir >= 0 {
                let bumped = bump_course(prev[ir], rb, cnt);
                assert(cs == prev.update(ir, bumped));
                assert(cs[ir].course_full_title == r.course_full_title);
                if ip >= 0 {
                    assert(ip != ir);
                    assert(cs[ip] == prev[ip]);
                    assert forall|j: int| 0 <= j < ip implies (#[trigger] cs[j]).course_full_title
                        != key by {
                        if j == ir {
                            assert(cs[j].course_full_title == prev[j].course_full_title);
                        } else {
                            assert(cs[j] == prev[j]);
                        }
                    }
                    lemma_find_course_at(cs, key, ip);
                    assert(i == ip);
                } else {
                    assert forall|j: int| 0 <= j < cs.len() implies (#[trigger] cs[j]).course_full_title
                        != key by {
                        if j == ir {
                            assert(cs[j].course_full_title == prev[j].course_full_title);
                        } else {
                            assert(cs[j] == prev[j]);
                        }
                    }
                    lemma_find_course_none(cs, key);
                    assert(i == -1);
                }
            } else {
                assert(cs == prev.push(seed_course(r, rb)));
                if ip >= 0 {
                    assert(cs[ip] == prev[ip]);
                    assert forall|j: int| 0 <= j < ip implies (#[trigger] cs[j]).course_full_title
                        != key by {
                        assert(cs[j] == prev[j]);
                    }
                    lemma_find_course_at(cs, key, ip);
                    assert(i == ip);
                } else {
                    assert forall|j: int| 0 <= j < cs.len() implies (#[trigger] cs[j]).course_full_title
                        != key by {
                        if j < prev.len() {
                            assert(cs[j] == prev[j]);
                        } else {
                            assert(cs[j] == seed_course(r, rb));
                        }
                    }
                    lemma_find_course_none(cs, key);
                    assert(i == -1);
                }
            }
            assert((i >= 0) == (ip >= 0));
            assert forall|j: int|
                0 <= j < rows.len() && (#[trigger] rows[j]).course_full_title == key implies j
                < prev_rows.len() && prev_rows[j].course_full_title == key by {
                assert(rows[rows.len() - 1].course_full_title != key);
                assert(prev_rows[j] == rows[j]);
            }
            assert forall|j: int|
                0 <= j < prev_rows.len() && (#[trigger] prev_rows[j]).course_full_title
                    == key implies rows[j].course_full_title == key by {
                assert(prev_rows[j] == rows[j]);
            }
        }
    }
}

/// The per-bucket total depends only on the multiset of rows, not on the
/// order they arrive in.
pub proof fn lemma_total_count_permutation(
    rows1: Seq<RawRowV>,
    rows2: Seq<RawRowV>,
    key: Seq<char>,
    b: int,
)
    requires
        rows1.to_multiset() == rows2.to_multiset(),
    ensures
        total_count_for(rows1, key, b) == total_count_for(rows2, key, b),
    decreases rows1.len(),
{
    rows1.to_multiset_ensures();
    rows2.to_multiset_ensures();
    if rows1.len() == 0 {
        assert(rows2.len() == 0);
    } else {
        let x = rows1.last();
        assert(rows1[rows1.len() - 1] == x);
        assert(rows1.contains(x));
        assert(rows1.to_multiset().count(x) > 0);
        assert(rows2.contains(x));
        let j = choose|j: int| 0 <= j < rows2.len() && rows2[j] == x;
        assert(rows1.remove(rows1.len() - 1) =~= rows1.drop_last());
        assert(rows1.drop_last().to_multiset() =~= rows1.to_multiset().remove(x));
        assert(rows2.remove(j).to_multiset() =~= rows2.to_multiset().remove(x));
        lemma_total_count_permutation(rows1.drop_last(), rows2.remove(j), key, b);
        lemma_sum_remove(rows2, j, key, b);
    }
}

/// The order-independence law: two arrival orders of the same multiset of
/// recognized rows group the same courses and give every bucket of every
/// course the same final count.
pub proof fn lemma_aggregate_order_independent(
    rows1: Seq<RawRowV>,
    rows2: Seq<RawRowV>,
    key: Seq<char>,
    b: int,
)
    requires
        rows1.to_multiset() == rows2.to_multiset(),
        all_known(rows1),
        0 <= b < 13,
    ensures
        all_known(rows2),
        ({
            let i1 = find_course(agg_rows(rows1), key);
            let i2 = find_course(agg_rows(rows2), key);
            &&& (i1 >= 0 <==> i2 >= 0)
            &&& i1 >= 0 ==> agg_rows(rows1)[i1].counts[b] == agg_rows(rows2)[i2].counts[b]
        }),
{
    rows1.to_multiset_ensures();
    rows2.to_multiset_ensures();
    assert forall|i: int| 0 <= i < rows2.len() implies (bucket_of(
        #[trigger] rows2[i].grade,
    )) is Some by {
        assert(rows2[i] == rows2[i]);
        assert(rows2.contains(rows2[i]));
        assert(rows2.to_multiset().count(rows2[i]) > 0);
        assert(rows1.contains(rows2[i]));
        let j = choose|j: int| 0 <= j < rows1.len() && rows1[j] == rows2[i];
        assert(bucket_of(rows1[j].grade) is Some);
    }
    lemma_aggregate_counts(rows1, key, b);
    lemma_aggregate_counts(rows2, key, b);
    lemma_total_count_permutation(rows1, rows2, key, b);
    if exists|j: int| 0 <= j < rows1.len() && (#[trigger] rows1[j]).course_full_title == key {
        let j = choose|j: int| 0 <= j < rows1.len() && (#[trigger] rows1[j]).course_full_title
            == key;
        assert(rows1.contains(rows1[j]));
        assert(rows1.to_multiset().count(rows1[j]) > 0);
        assert(rows2.contains(rows1[j]));
        let j2 = choose|j2: int| 0 <= j2 < rows2.len() && rows2[j2] == rows1[j];
        assert(rows2[j2].course_full_title == key);
    }
    if exists|j: int| 0 <= j < rows2.len() && (#[trigger] rows2[j]).course_full_title == key {
        let j = choose|j: int| 0 <= j < rows2.len() && (#[trigger] rows2[j]).course_full_title
            == key;
        assert(rows2.contains(rows2[j]));
        assert(rows2.to_multiset().count(rows2[j]) > 0);
        assert(rows1.contains(rows2[j]));
        let j2 = choose|j2: int| 0 <= j2 < rows1.len() && rows1[j2] == rows2[j];
        assert(rows1[j2].course_full_title == key);
    }
}

/// Finds the record grouped under a course-full-title, if any.
fn find_by_title(cs: &Vec<AggregatedCourse>, key: &String) -> (r: Option<usize>)
    ensures
        match r {
            Some(j) => j < cs@.len() && find_course(courses_view(cs@), key@) == j as int,
            None => find_course(courses_view(cs@), key@) == -1,
        },
{
    let ghost cv = courses_view(cs@);
    let n = cs.len();
    let mut j: usize = 0;
    while j < n
        invariant
            0 <= j <= n,
            n == cs@.len(),
            cv == courses_view(cs@),
            cv.len() == n,
            forall|j2: int| 0 <= j2 < j ==> (#[trigger] cv[j2]).course_full_title != key@,
        decreases n - j,
    {
        if cs[j].course_full_title == *key {
            proof {
                assert(cv[j as int].course_full_title == key@);
                lemma_find_course_at(cv, key@, j as int);
            }
            return Some(j);
        }
        proof {
            assert(cv[j as int].course_full_title != key@);
        }
        j += 1;
    }
    proof {
        lemma_find_course_none(cv, key@);
    }
    None
}

/// Folds raw rows into one aggregated record per course-full-title.
///
/// On success the result is exactly the spec-level fold of the rows, in
/// first-seen course order. The fold fails, emitting nothing, exactly when
/// some row's grade label is unrecognized, and the reported label is the
/// first such row's.
pub fn aggregate(rows: &Vec<RawRow>) -> (r: Result<Vec<AggregatedCourse>, ParseError>)
    requires
        rows@.len() * 65535 <= u64::MAX,
    ensures
        match r {
            Ok(cs) => {
                &&& all_known(rows_view(rows@))
                &&& courses_view(cs@) == agg_rows(rows_view(rows@))
            },
            Err(e) => {
                &&& !all_known(rows_view(rows@))
                &&& e@ == (ParseErrorV::UnknownGradeLabel {
                    label: rows_view(rows@)[first_unknown(rows_view(rows@))].grade,
                })
            },
        },
{
    let ghost rv = rows_view(rows@);
    let n = rows.len();
    let mut cs: Vec<AggregatedCourse> = Vec::new();
    let mut k: usize = 0;
    proof {
        assert(rv.subrange(0, 0) =~= Seq::<RawRowV>::empty());
        assert(courses_view(cs@) =~= Seq::<CourseV>::empty());
    }
    while k < n
        invariant
            0 <= k <= n,
            n == rows@.len(),
            rv == rows_view(rows@),
            rv.len() == n,
            n * 65535 <= u64::MAX,
            forall|i: int| 0 <= i < k ==> (bucket_of(#[trigger] rv[i].grade)) is Some,
            courses_view(cs@) == agg_rows(rv.subrange(0, k as int)),
            forall|j: int| 0 <= j < cs@.len() ==> (#[trigger] cs@[j]).counts@.len() == 13,
            forall|j: int, b: int|
                0 <= j < cs@.len() && 0 <= b < 13 ==> (#[trigger] cs@[j].counts@[b]) <= k * 65535,
        decreases n - k,
    {
        let row = &rows[k];
        proof {
            assert(rv[k as int] == rows@[k as int]@);
        }
        let b = match bucket_index(row.grade.as_str()) {
            Some(b) => b,
            None => {
                proof {
                    lemma_first_unknown(rv, k as int);
                }
                return Err(ParseError::UnknownGradeLabel { label: row.grade.clone() });
            },
        };
        let ghost prev = courses_view(cs@);
        let found = find_by_title(&cs, &row.course_full_title);
        match found {
            Some(j) => {
                let mut course = cs.remove(j);
                let cur: u64 = course.counts[b];
                let added: u64 = cur + (row.grade_count as u64);
                course.counts[b] = added;
                cs.insert(j, course);
                proof {
                    let bumped = bump_course(prev[j as int], b as int, rv[k as int].grade_count as int);
                    assert(course@.counts =~= prev[j as int].counts.update(
                        b as int,
                        prev[j as int].counts[b as int] + rv[k as int].grade_count as int,
                    ));
                    assert(course@ == bumped);
                    assert(courses_view(cs@) =~= prev.update(j as int, bumped));
                }
            },
            None => {
                let mut counts: Vec<u64> = Vec::new();
                let mut z: usize = 0;
                while z < NUM_GRADES
                    invariant
                        0 <= z <= 13,
                        counts@.len() == z,
                        forall|i: int| 0 <= i < z ==> (#[trigger] counts@[i]) == 0,
                    decreases 13 - z,
                {
                    counts.push(0);
                    z += 1;
                }
                counts[b] = row.grade_count as u64;
                let course = AggregatedCourse {
                    semester: row.semester.clone(),
                    section: row.section,
                    department: row.department.clone(),
                    department_code: row.department_code.clone(),
                    course_number: row.course_number.clone(),
                    course_title: row.course_title.clone(),
                    course_full_title: row.course_full_title.clone(),
                    counts,
                };
                proof {
                    assert(course@.counts =~= zero_counts().update(
                        b as int,
                        rv[k as int].grade_count as int,
                    ));
                    assert(course@ == seed_course(rv[k as int], b as int));
                }
                cs.push(course);
                proof {
                    assert(courses_view(cs@) =~= prev.push(seed_course(rv[k as int], b as int)));
                }
            },
        }
        proof {
            assert(rv.subrange(0, k + 1).drop_last() =~= rv.subrange(0, k as int));
            assert(rv.subrange(0, k + 1).last() == rv[k as int]);
            assert(courses_view(cs@) == agg_rows(rv.subrange(0, k + 1)));
        }
        k += 1;
    }
    proof {
        assert(rv.subrange(0, n as int) =~= rv);
    }
    Ok(cs)
}

} // verus!
