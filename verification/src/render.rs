//! Rendering aggregated records into the tab-delimited output format: a
//! fixed 20-column header, then one line per course whose 13 trailing numeric
//! fields stand in the fixed canonical bucket order.

use vstd::prelude::*;
use crate::aggregate::{courses_view, wf_course, AggregatedCourse, CourseV};
use crate::text::{
    dec_str, free_of, join_with, lemma_dec_str_digits, lemma_join_push, lemma_split_join, split_on,
    u64_to_string,
};

verus! {

/// The fixed header row: seven descriptive columns, then the 13 canonical
/// grade buckets.
pub open spec fn header_text() -> Seq<char> {
    "Semester\tSection\tDepartment\tDepartment Code\tCourse Number\tCourse Title\tCourse Full Title\tA\tA-\tB+\tB\tB-\tC+\tC\tC-\tD+\tD\tD-\tF\tOther"@
}

/// Writes the fixed header row.
pub fn render_header() -> (r: String)
    ensures
        r@ == header_text(),
{
    "Semester\tSection\tDepartment\tDepartment Code\tCourse Number\tCourse Title\tCourse Full Title\tA\tA-\tB+\tB\tB-\tC+\tC\tC-\tD+\tD\tD-\tF\tOther".to_owned()
}

/// The numerals of a record's bucket counts, in canonical bucket order.
pub open spec fn count_fields(counts: Seq<int>) -> Seq<Seq<char>> {
    Seq::new(counts.len(), |i: int| dec_str(counts[i]))
}

/// The 20 output fields of one record: the seven descriptive fields, then
/// one numeral per canonical bucket.
pub open spec fn course_fields(c: CourseV) -> Seq<Seq<char>> {
    seq![
        c.semester,
        dec_str(c.section as int),
        c.department,
        c.department_code,
        c.course_number,
        c.course_title,
        c.course_full_title,
    ] + count_fields(c.counts)
}

/// One record's output line: its fields joined by tabs.
pub open spec fn render_course_spec(c: CourseV) -> Seq<char> {
    join_with(course_fields(c), '\t')
}

/// Whether a record's descriptive fields are free of tabs, so that its
/// rendered line splits back into the same fields.
pub open spec fn fields_tab_free(c: CourseV) -> bool {
    &&& free_of(c.semester, '\t')
    &&& free_of(c.department, '\t')
    &&& free_of(c.department_code, '\t')
    &&& free_of(c.course_number, '\t')
    &&& free_of(c.course_title, '\t')
    &&& free_of(c.course_full_title, '\t')
}

/// A numeral contains no tab.
proof fn lemma_dec_str_tab_free(n: int)
    requires
        n >= 0,
    ensures
        free_of(dec_str(n), '\t'),
{
    lemma_dec_str_digits(n);
    assert('\t' as int == 9);
}

/// The column-layout law: a rendered record line splits on tabs into exactly
/// 20 fields — the seven descriptive fields, then one numeral per canonical
/// bucket in the fixed order, a bucket never observed reading as its zero
/// count's numeral.
pub proof fn lemma_rendered_row_fields(c: CourseV)
    requires
        wf_course(c),
        fields_tab_free(c),
    ensures
        ({
            let fs = split_on(render_course_spec(c), '\t');
            &&& fs.len() == 20
            &&& fs[0] == c.semester
            &&& fs[1] == dec_str(c.section as int)
            &&& fs[2] == c.department
            &&& fs[3] == c.department_code
            &&& fs[4] == c.course_number
            &&& fs[5] == c.course_title
            &&& fs[6] == c.course_full_title
            &&& forall|b: int| 0 <= b < 13 ==> fs[7 + b] == dec_str(c.counts[b])
        }),
{
    let fields = course_fields(c);
    assert(fields.len() == 20);
    assert forall|k: int| 0 <= k < fields.len() implies free_of(#[trigger] fields[k], '\t') by {
        if k == 1 {
            lemma_dec_str_tab_free(c.section as int);
        } else if k >= 7 {
            assert(fields[k] == dec_str(c.counts[k - 7]));
            lemma_dec_str_tab_free(c.counts[k - 7]);
        }
    }
    lemma_split_join(fields, '\t');
}

/// The fold keeps descriptive fields tab-free: every record aggregated from
/// tab-free rows is itself tab-free.
pub proof fn lemma_agg_rows_tab_free(rows: Seq<crate::row::RawRowV>)
    requires
        forall|i: int| 0 <= i < rows.len() ==> crate::row::row_tab_free(#[trigger] rows[i]),
    ensures
        forall|j: int|
            0 <= j < crate::aggregate::agg_rows(rows).len() ==> fields_tab_free(
                #[trigger] crate::aggregate::agg_rows(rows)[j],
            ),
    decreases rows.len(),
{
    if rows.len() > 0 {
        assert forall|i: int| 0 <= i < rows.drop_last().len() implies crate::row::row_tab_free(
            #[trigger] rows.drop_last()[i],
        ) by {
            assert(rows.drop_last()[i] == rows[i]);
        }
        lemma_agg_rows_tab_free(rows.drop_last());
        let prev = crate::aggregate::agg_rows(rows.drop_last());
        let r = rows.last();
        assert(r == rows[rows.len() - 1]);
        match crate::grades::bucket_of(r.grade) {
            None => {},
            Some(b) => {
                crate::aggregate::lemma_find_course(prev, r.course_full_title);
                let i = crate::aggregate::find_course(prev, r.course_full_title);
                assert forall|j: int|
                    0 <= j < crate::aggregate::agg_rows(rows).len() implies fields_tab_free(
                    #[trigger] crate::aggregate::agg_rows(rows)[j],
                ) by {
                    if i >= 0 {
                        if j != i {
                            assert(crate::aggregate::agg_rows(rows)[j] == prev[j]);
                        } else {
                            assert(fields_tab_free(prev[i]));
                        }
                    } else {
                        if j < prev.len() {
                            assert(crate::aggregate::agg_rows(rows)[j] == prev[j]);
                        } else {
                            assert(crate::aggregate::agg_rows(rows)[j]
                                == crate::aggregate::seed_course(r, b));
                        }
                    }
                }
            },
        }
    }
}

/// Writes one record's output line.
pub fn render_course(c: &AggregatedCourse) -> (r: String)
    requires
        c@.counts.len() == 13,
    ensures
        r@ == render_course_spec(c@),
{
    proof {
        reveal_strlit("\t");
    }
    let ghost fields = course_fields(c@);
    let mut out = c.semester.clone();
    proof {
        assert(fields.take(1) =~= seq![c@.semester]);
        assert(out@ == join_with(fields.take(1), '\t'));
    }
    out.append("\t");
    let section_text = u64_to_string(c.section as u64);
    out.append(section_text.as_str());
    proof {
        lemma_join_push(fields.take(1), fields[1], '\t');
        assert(fields.take(1).push(fields[1]) =~= fields.take(2));
        assert(out@ == join_with(fields.take(2), '\t'));
    }
    out.append("\t");
    out.append(c.department.as_str());
    proof {
        lemma_join_push(fields.take(2), fields[2], '\t');
        assert(fields.take(2).push(fields[2]) =~= fields.take(3));
        assert(out@ == join_with(fields.take(3), '\t'));
    }
    out.append("\t");
    out.append(c.department_code.as_str());
    proof {
        lemma_join_push(fields.take(3), fields[3], '\t');
        assert(fields.take(3).push(fields[3]) =~= fields.take(4));
        assert(out@ == join_with(fields.take(4), '\t'));
    }
    out.append("\t");
    out.append(c.course_number.as_str());
    proof {
        lemma_join_push(fields.take(4), fields[4], '\t');
        assert(fields.take(4).push(fields[4]) =~= fields.take(5));
        assert(out@ == join_with(fields.take(5), '\t'));
    }
    out.append("\t");
    out.append(c.course_title.as_str());
    proof {
        lemma_join_push(fields.take(5), fields[5], '\t');
        assert(fields.take(5).push(fields[5]) =~= fields.take(6));
        assert(out@ == join_with(fields.take(6), '\t'));
    }
    out.append("\t");
    out.append(c.course_full_title.as_str());
    proof {
        lemma_join_push(fields.take(6), fields[6], '\t');
        assert(fields.take(6).push(fields[6]) =~= fields.take(7));
        assert(out@ == join_with(fields.take(7), '\t'));
    }
    let mut b: usize = 0;
    while b < 13
        invariant
            0 <= b <= 13,
            c@.counts.len() == 13,
            fields == course_fields(c@),
            fields.len() == 20,
            out@ == join_with(fields.take(7 + b as int), '\t'),
        decreases 13 - b,
    {
        out.append("\t");
        let num = u64_to_string(c.counts[b]);
        out.append(num.as_str());
        proof {
            reveal_strlit("\t");
            assert(fields[7 + b as int] == dec_str(c@.counts[b as int]));
            assert(num@ == fields[7 + b as int]);
            lemma_join_push(fields.take(7 + b as int), fields[7 + b as int], '\t');
            assert(fields.take(7 + b as int).push(fields[7 + b as int]) =~= fields.take(
                8 + b as int,
            ));
            assert(out@ == join_with(fields.take(8 + b as int), '\t'));
        }
        b += 1;
    }
    proof {
        assert(fields.take(20) =~= fields);
    }
    out
}

/// A whole output file: the header, then one line per record, in the order
/// the records stand in.
pub open spec fn render_file_spec(cs: Seq<CourseV>) -> Seq<char>
    decreases cs.len(),
{
    if cs.len() == 0 {
        header_text()
    } else {
        render_file_spec(cs.drop_last()) + seq!['\n'] + render_course_spec(cs.last())
    }
}

/// Writes the whole output file for a sequence of aggregated records.
pub fn render_file(cs: &Vec<AggregatedCourse>) -> (r: String)
    requires
        forall|j: int| 0 <= j < cs@.len() ==> (#[trigger] cs@[j]@).counts.len() == 13,
    ensures
        r@ == render_file_spec(courses_view(cs@)),
{
    proof {
        reveal_strlit("\n");
    }
    let ghost cv = courses_view(cs@);
    let mut out = render_header();
    proof {
        assert(cv.take(0) =~= Seq::<CourseV>::empty());
    }
    let n = cs.len();
    let mut k: usize = 0;
    while k < n
        invariant
            0 <= k <= n,
            n == cs@.len(),
            cv == courses_view(cs@),
            cv.len() == n,
            forall|j: int| 0 <= j < cs@.len() ==> (#[trigger] cs@[j]@).counts.len() == 13,
            out@ == render_file_spec(cv.take(k as int)),
        decreases n - k,
    {
        out.append("\n");
        let line = render_course(&cs[k]);
        out.append(line.as_str());
        proof {
            reveal_strlit("\n");
            assert(cv[k as int] == cs@[k as int]@);
            assert(cv.take(k + 1).drop_last() =~= cv.take(k as int));
            assert(cv.take(k + 1).last() == cv[k as int]);
            assert(out@ == render_file_spec(cv.take(k + 1)));
        }
        k += 1;
    }
    proof {
        assert(cv.take(n as int) =~= cv);
    }
    out
}

} // verus!
