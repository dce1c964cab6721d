//! The per-file pipeline: parse every raw data line, fold the rows into one
//! record per course, and render the complete output file. A file is one
//! unit of work: either its whole output text is produced, or the first
//! error is reported and no output text exists at all.

use vstd::prelude::*;
use crate::aggregate::{
    agg_rows, aggregate, all_known, courses_view, first_unknown, lemma_agg_rows_wf, rows_view,
};
use crate::render::{render_file, render_file_spec};
use crate::row::{parse_row, parse_row_spec, ParseError, ParseErrorV, RawRow, RawRowV};

verus! {

/// The views of a sequence of lines.
pub open spec fn lines_view(lines: Seq<String>) -> Seq<Seq<char>> {
    lines.map_values(|l: String| l@)
}

/// The records of a sequence of fully parsable lines.
pub open spec fn parsed_models(lines: Seq<Seq<char>>) -> Seq<RawRowV> {
    Seq::new(lines.len(), |j: int| parse_row_spec(lines[j])->Ok_0)
}

/// Parses every raw line in order; the first malformed line fails the whole
/// batch with its own error.
pub fn parse_lines(lines: &Vec<String>) -> (r: Result<Vec<RawRow>, ParseError>)
    ensures
        match r {
            Ok(rows) => {
                &&& rows@.len() == lines@.len()
                &&& forall|j: int|
                    0 <= j < lines@.len() ==> parse_row_spec(#[trigger] lines_view(lines@)[j])
                        == Ok::<RawRowV, ParseErrorV>(rows_view(rows@)[j])
            },
            Err(e) => exists|j: int|
                #![auto]
                {
                    &&& 0 <= j < lines@.len()
                    &&& parse_row_spec(lines_view(lines@)[j]) == Err::<RawRowV, ParseErrorV>(e@)
                    &&& forall|j2: int|
                        0 <= j2 < j ==> parse_row_spec(lines_view(lines@)[j2]) is Ok
                },
        },
{
    let n = lines.len();
    let mut rows: Vec<RawRow> = Vec::new();
    let mut k: usize = 0;
    while k < n
        invariant
            0 <= k <= n,
            n == lines@.len(),
            rows@.len() == k,
            forall|j: int|
                0 <= j < k ==> parse_row_spec(#[trigger] lines_view(lines@)[j]) == Ok::<
                    RawRowV,
                    ParseErrorV,
                >(rows_view(rows@)[j]),
        decreases n - k,
    {
        proof {
            assert(lines_view(lines@)[k as int] == lines@[k as int]@);
        }
        match parse_row(lines[k].as_str()) {
            Ok(row) => {
                proof {
                    assert(rows_view(rows@.push(row)) =~= rows_view(rows@).push(row@));
                }
                rows.push(row);
            },
            Err(e) => {
                proof {
                    assert(0 <= k < lines@.len() && parse_row_spec(lines_view(lines@)[k as int])
                        == Err::<RawRowV, ParseErrorV>(e@) && forall|j2: int|
                        0 <= j2 < k ==> parse_row_spec(lines_view(lines@)[j2]) is Ok);
                }
                return Err(e);
            },
        }
        k += 1;
    }
    Ok(rows)
}

/// Processes one raw file's data lines end to end: parse, fold, render.
///
/// On success every line parsed, every grade label had a bucket, and the
/// text is exactly the rendered fold of the parsed rows. On failure the
/// error is the first malformed line's, or else the first unrecognized
/// grade label's, and no output text is produced.
pub fn process_lines(lines: &Vec<String>) -> (r: Result<String, ParseError>)
    requires
        lines@.len() * 65535 <= u64::MAX,
    ensures
        match r {
            Ok(text) => {
                &&& forall|j: int|
                    0 <= j < lines@.len() ==> parse_row_spec(
                        #[trigger] lines_view(lines@)[j],
                    ) is Ok
                &&& all_known(parsed_models(lines_view(lines@)))
                &&& text@ == render_file_spec(agg_rows(parsed_models(lines_view(lines@))))
            },
            Err(e) => {
                ||| exists|j: int|
                    #![auto]
                    {
                        &&& 0 <= j < lines@.len()
                        &&& parse_row_spec(lines_view(lines@)[j]) == Err::<RawRowV, ParseErrorV>(
                            e@,
                        )
                        &&& forall|j2: int|
                            0 <= j2 < j ==> parse_row_spec(lines_view(lines@)[j2]) is Ok
                    }
                ||| {
                    &&& forall|j: int|
                        0 <= j < lines@.len() ==> parse_row_spec(
                            #[trigger] lines_view(lines@)[j],
                        ) is Ok
                    &&& !all_known(parsed_models(lines_view(lines@)))
                    &&& e@ == (ParseErrorV::UnknownGradeLabel {
                        label: parsed_models(lines_view(lines@))[first_unknown(
                            parsed_models(lines_view(lines@)),
                        )].grade,
                    })
                }
            },
        },
{
    let rows = match parse_lines(lines) {
        Ok(rs) => rs,
        Err(e) => {
            return Err(e);
        },
    };
    proof {
        assert(rows_view(rows@) =~= parsed_models(lines_view(lines@)));
    }
    let cs = match aggregate(&rows) {
        Ok(cs) => cs,
        Err(e) => {
            return Err(e);
        },
    };
    proof {
        lemma_agg_rows_wf(rows_view(rows@));
        assert forall|j: int| 0 <= j < cs@.len() implies (#[trigger] cs@[j]@).counts.len()
            == 13 by {
            assert(courses_view(cs@)[j] == cs@[j]@);
        }
    }
    let text = render_file(&cs);
    Ok(text)
}

/// The fixed-column law for processed output: every record the pipeline's
/// fold emits renders to a line of exactly 20 tab-separated fields — the
/// seven descriptive fields, then the 13 bucket-count numerals in the fixed
/// canonical order, a bucket never observed reading as "0".
pub proof fn lemma_output_rows_fixed_columns(lines: Seq<Seq<char>>)
    requires
        forall|j: int| 0 <= j < lines.len() ==> parse_row_spec(#[trigger] lines[j]) is Ok,
        all_known(parsed_models(lines)),
    ensures
        ({
            let cs = agg_rows(parsed_models(lines));
            forall|j: int|
                0 <= j < cs.len() ==> {
                    let fs = crate::text::split_on(
                        crate::render::render_course_spec(#[trigger] cs[j]),
                        '\t',
                    );
                    &&& fs.len() == 20
                    &&& forall|b: int| 0 <= b < 13 ==> fs[7 + b] == crate::text::dec_str(
                        cs[j].counts[b],
                    )
                }
        }),
{
    let rows = parsed_models(lines);
    assert forall|i: int| 0 <= i < rows.len() implies crate::row::row_tab_free(
        #[trigger] rows[i],
    ) by {
        crate::row::lemma_parsed_row_tab_free(lines[i]);
        assert(rows[i] == parse_row_spec(lines[i])->Ok_0);
    }
    crate::render::lemma_agg_rows_tab_free(rows);
    lemma_agg_rows_wf(rows);
    let cs = agg_rows(rows);
    assert forall|j: int| 0 <= j < cs.len() implies {
        let fs = crate::text::split_on(crate::render::render_course_spec(#[trigger] cs[j]), '\t');
        &&& fs.len() == 20
        &&& forall|b: int| 0 <= b < 13 ==> fs[7 + b] == crate::text::dec_str(cs[j].counts[b])
    } by {
        crate::render::lemma_rendered_row_fields(cs[j]);
    }
}

} // verus!
