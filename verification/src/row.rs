//! The row parser: one raw tab-delimited line becomes a typed record with
//! exactly nine fields, or a per-row parse error. The section is an unsigned
//! integer, the grade count may carry comma thousands separators, and the
//! course number is trimmed of surrounding whitespace.

use vstd::prelude::*;
use crate::text::{
    split_on, parse_uint, strip_commas, trim_spec, split_char, parse_uint_capped, remove_commas,
    trim_str,
};

verus! {

/// One raw export record, exactly as one tab-delimited line describes it.
#[derive(Debug)]
pub struct RawRow {
    pub semester: String,
    pub section: u32,
    pub department: String,
    pub department_code: String,
    pub course_number: String,
    pub course_title: String,
    pub course_full_title: String,
    pub grade: String,
    pub grade_count: u16,
}

/// The mathematical model of a raw record.
pub struct RawRowV {
    pub semester: Seq<char>,
    pub section: u32,
    pub department: Seq<char>,
    pub department_code: Seq<char>,
    pub course_number: Seq<char>,
    pub course_title: Seq<char>,
    pub course_full_title: Seq<char>,
    pub grade: Seq<char>,
    pub grade_count: u16,
}

impl View for RawRow {
    type V = RawRowV;

    open spec fn view(&self) -> RawRowV {
        RawRowV {
            semester: self.semester@,
            section: self.section,
            department: self.department@,
            department_code: self.department_code@,
            course_number: self.course_number@,
            course_title: self.course_title@,
            course_full_title: self.course_full_title@,
            grade: self.grade@,
            grade_count: self.grade_count,
        }
    }
}

/// Why a row or a file could not be processed.
#[derive(Debug)]
pub enum ParseError {
    /// The line did not have exactly the expected number of tab-separated
    /// fields.
    FieldCountMismatch { expected: usize, actual: usize },
    /// A numeric field did not read as an unsigned integer in range.
    InvalidInteger { field: String },
    /// A grade label matched neither the 13 canonical labels nor the known
    /// anomalous label "A+".
    UnknownGradeLabel { label: String },
}

/// The mathematical model of a parse error.
pub enum ParseErrorV {
    FieldCountMismatch { expected: int, actual: int },
    InvalidInteger { field: Seq<char> },
    UnknownGradeLabel { label: Seq<char> },
}

impl View for ParseError {
    type V = ParseErrorV;

    open spec fn view(&self) -> ParseErrorV {
        match self {
            ParseError::FieldCountMismatch { expected, actual } => ParseErrorV::FieldCountMismatch {
                expected: *expected as int,
                actual: *actual as int,
            },
            ParseError::InvalidInteger { field } => ParseErrorV::InvalidInteger { field: field@ },
            ParseError::UnknownGradeLabel { label } => ParseErrorV::UnknownGradeLabel {
                label: label@,
            },
        }
    }
}

impl ParseError {
    /// A short description of the error, for reporting.
    pub fn describe(&self) -> String {
        match self {
            ParseError::FieldCountMismatch { expected: _, actual: _ } => {
                "row does not have exactly 9 tab-separated fields".to_owned()
            },
            ParseError::InvalidInteger { field: _ } => {
                "numeric field does not parse as an unsigned integer".to_owned()
            },
            ParseError::UnknownGradeLabel { label: _ } => {
                "grade label is outside the known schema".to_owned()
            },
        }
    }
}

/// What parsing one raw line yields: a total, deterministic function of the
/// line's text. A line with other than nine fields is refused; the section
/// must read as a `u32` and the comma-stripped grade count as a `u16`; the
/// course number is trimmed of surrounding whitespace, no other field is.
pub open spec fn parse_row_spec(line: Seq<char>) -> Result<RawRowV, ParseErrorV> {
    let fields = split_on(line, '\t');
    if fields.len() != 9 {
        Err(ParseErrorV::FieldCountMismatch { expected: 9, actual: fields.len() as int })
    } else if !(parse_uint(fields[1]) matches Some(v) && v <= u32::MAX) {
        Err(ParseErrorV::InvalidInteger { field: fields[1] })
    } else if !(parse_uint(strip_commas(fields[8])) matches Some(v) && v <= u16::MAX) {
        Err(ParseErrorV::InvalidInteger { field: fields[8] })
    } else {
        Ok(
            RawRowV {
                semester: fields[0],
                section: parse_uint(fields[1]).unwrap() as u32,
                department: fields[2],
                department_code: fields[3],
                course_number: trim_spec(fields[4]),
                course_title: fields[5],
                course_full_title: fields[6],
                grade: fields[7],
                grade_count: parse_uint(strip_commas(fields[8])).unwrap() as u16,
            },
        )
    }
}

/// Whether a record's descriptive text fields are free of tabs, as every
/// parsed record's are: they came from splitting a line on tabs.
pub open spec fn row_tab_free(r: RawRowV) -> bool {
    &&& crate::text::free_of(r.semester, '\t')
    &&& crate::text::free_of(r.department, '\t')
    &&& crate::text::free_of(r.department_code, '\t')
    &&& crate::text::free_of(r.course_number, '\t')
    &&& crate::text::free_of(r.course_title, '\t')
    &&& crate::text::free_of(r.course_full_title, '\t')
}

/// Every successfully parsed record has tab-free fields.
pub proof fn lemma_parsed_row_tab_free(line: Seq<char>)
    ensures
        parse_row_spec(line) matches Ok(r) ==> row_tab_free(r),
{
    crate::text::lemma_split_fields_free(line, '\t');
    if parse_row_spec(line) is Ok {
        let fields = split_on(line, '\t');
        crate::text::lemma_trim_free_of(fields[4], '\t');
    }
}

/// Parses one raw tab-delimited line into a typed record.
pub fn parse_row(line: &str) -> (r: Result<RawRow, ParseError>)
    ensures
        match r {
            Ok(row) => parse_row_spec(line@) == Ok::<RawRowV, ParseErrorV>(row@),
            Err(e) => parse_row_spec(line@) == Err::<RawRowV, ParseErrorV>(e@),
        },
{
    let fields = split_char(line, '\t');
    let ghost fv = fields@.map_values(|f: String| f@);
    if fields.len() != 9 {
        return Err(
            ParseError::FieldCountMismatch { expected: 9, actual: fields.len() },
        );
    }
    proof {
        assert(fv[1] == fields@[1]@);
        assert(fv[8] == fields@[8]@);
        crate::text::lemma_parse_uint_nonneg(fv[1]);
        crate::text::lemma_parse_uint_nonneg(strip_commas(fv[8]));
    }
    let section_u64 = parse_uint_capped(fields[1].as_str());
    let section: u32 = match section_u64 {
        Some(v) => v as u32,
        None => {
            return Err(ParseError::InvalidInteger { field: fields[1].clone() });
        },
    };
    let stripped = remove_commas(fields[8].as_str());
    let count_u64 = parse_uint_capped(stripped.as_str());
    let grade_count: u16 = match count_u64 {
        Some(v) if v <= 0xFFFF => v as u16,
        _ => {
            return Err(ParseError::InvalidInteger { field: fields[8].clone() });
        },
    };
    let row = RawRow {
        semester: fields[0].clone(),
        section,
        department: fields[2].clone(),
        department_code: fields[3].clone(),
        course_number: trim_str(fields[4].as_str()),
        course_title: fields[5].clone(),
        course_full_title: fields[6].clone(),
        grade: fields[7].clone(),
        grade_count,
    };
    proof {
        assert(fv[0] == fields@[0]@);
        assert(fv[2] == fields@[2]@);
        assert(fv[3] == fields@[3]@);
        assert(fv[4] == fields@[4]@);
        assert(fv[5] == fields@[5]@);
        assert(fv[6] == fields@[6]@);
        assert(fv[7] == fields@[7]@);
    }
    Ok(row)
}

} // verus!
