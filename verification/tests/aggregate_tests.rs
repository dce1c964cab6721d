use gradedist::aggregate::aggregate;
use gradedist::grades::{bucket_index, grade_labels};
use gradedist::pipeline::process_lines;
use gradedist::render::{render_course, render_header};
use gradedist::row::{parse_row, ParseError, RawRow};

fn row(full_title: &str, grade: &str, count: u16) -> RawRow {
    RawRow {
        semester: "Fall 2021".to_string(),
        section: 10,
        department: "Math".to_string(),
        department_code: "M".to_string(),
        course_number: "301".to_string(),
        course_title: "Calc I".to_string(),
        course_full_title: full_title.to_string(),
        grade: grade.to_string(),
        grade_count: count,
    }
}

const HEADER: &str = "Semester\tSection\tDepartment\tDepartment Code\tCourse Number\tCourse Title\tCourse Full Title\tA\tA-\tB+\tB\tB-\tC+\tC\tC-\tD+\tD\tD-\tF\tOther";

#[test]
fn canonical_labels_fixed_order() {
    let labels = grade_labels();
    let expected = [
        "A", "A-", "B+", "B", "B-", "C+", "C", "C-", "D+", "D", "D-", "F", "Other",
    ];
    assert_eq!(labels.len(), 13);
    for (i, l) in expected.iter().enumerate() {
        assert_eq!(labels[i], *l);
    }
}

#[test]
fn bucket_of_each_label() {
    let labels = grade_labels();
    for (i, l) in labels.iter().enumerate() {
        assert_eq!(bucket_index(l), Some(i));
    }
    assert_eq!(bucket_index("A+"), Some(0));
    assert_eq!(bucket_index("Q"), None);
    assert_eq!(bucket_index(""), None);
}

#[test]
fn a_plus_folds_into_a_bucket() {
    let rows = vec![
        row("M-301: CALC I, Sec 10", "A", 20),
        row("M-301: CALC I, Sec 10", "A+", 5),
    ];
    let courses = aggregate(&rows).unwrap();
    assert_eq!(courses.len(), 1);
    let c = &courses[0];
    assert_eq!(c.course_full_title, "M-301: CALC I, Sec 10");
    assert_eq!(c.counts.len(), 13);
    assert_eq!(c.counts[0], 25);
    for b in 1..13 {
        assert_eq!(c.counts[b], 0);
    }
}

#[test]
fn counts_sum_per_bucket() {
    let rows = vec![
        row("X", "B", 3),
        row("X", "B", 4),
        row("X", "F", 1),
        row("X", "A+", 2),
        row("X", "A", 5),
    ];
    let courses = aggregate(&rows).unwrap();
    assert_eq!(courses.len(), 1);
    let c = &courses[0];
    assert_eq!(c.counts[0], 7); // A plus the remapped A+
    assert_eq!(c.counts[3], 7); // B
    assert_eq!(c.counts[11], 1); // F
}

#[test]
fn arrival_order_does_not_change_counts() {
    let mut rows = vec![
        row("X", "B", 3),
        row("Y", "A", 9),
        row("X", "A+", 2),
        row("X", "F", 1),
        row("Y", "Other", 4),
    ];
    let forward = aggregate(&rows).unwrap();
    rows.reverse();
    let backward = aggregate(&rows).unwrap();
    for c1 in &forward {
        let c2 = backward
            .iter()
            .find(|c| c.course_full_title == c1.course_full_title)
            .unwrap();
        assert_eq!(c1.counts, c2.counts);
    }
    assert_eq!(forward.len(), backward.len());
}

#[test]
fn two_courses_stay_independent() {
    let rows = vec![
        row("M-301: CALC I, Sec 10", "A", 20),
        row("M-302: CALC II, Sec 1", "B", 7),
        row("M-301: CALC I, Sec 10", "B", 2),
    ];
    let courses = aggregate(&rows).unwrap();
    assert_eq!(courses.len(), 2);
    let first = &courses[0];
    let second = &courses[1];
    assert_eq!(first.course_full_title, "M-301: CALC I, Sec 10");
    assert_eq!(first.counts[0], 20);
    assert_eq!(first.counts[3], 2);
    assert_eq!(second.course_full_title, "M-302: CALC II, Sec 1");
    assert_eq!(second.counts[0], 0);
    assert_eq!(second.counts[3], 7);
}

#[test]
fn unknown_label_fails_aggregation() {
    let rows = vec![row("X", "A", 1), row("X", "Q", 2), row("X", "Z", 3)];
    match aggregate(&rows) {
        Err(ParseError::UnknownGradeLabel { label }) => assert_eq!(label, "Q"),
        other => panic!("expected an unknown-grade-label error, got {:?}", other),
    }
}

#[test]
fn descriptive_fields_are_first_seen() {
    let mut second = row("X", "B", 1);
    second.semester = "Spring 2022".to_string();
    second.section = 99;
    let rows = vec![row("X", "A", 1), second];
    let courses = aggregate(&rows).unwrap();
    assert_eq!(courses.len(), 1);
    assert_eq!(courses[0].semester, "Fall 2021");
    assert_eq!(courses[0].section, 10);
}

#[test]
fn rendered_row_has_13_trailing_numeric_fields() {
    let rows = vec![row("M-301: CALC I, Sec 10", "C-", 6)];
    let courses = aggregate(&rows).unwrap();
    let line = render_course(&courses[0]);
    let fields: Vec<&str> = line.split('\t').collect();
    assert_eq!(fields.len(), 20);
    for (i, f) in fields.iter().enumerate().skip(7) {
        let expected = if i == 7 + 7 { "6" } else { "0" };
        assert_eq!(*f, expected, "bucket field {}", i);
        assert!(f.chars().all(|c| c.is_ascii_digit()));
    }
}

#[test]
fn header_has_fixed_20_columns() {
    let header = render_header();
    assert_eq!(header, HEADER);
    assert_eq!(header.split('\t').count(), 20);
}

#[test]
fn process_lines_end_to_end() {
    let lines = vec![
        "Fall 2021\t10\tMath\tM\t301\tCalc I\tM-301: CALC I, Sec 10\tA\t20".to_string(),
        "Fall 2021\t10\tMath\tM\t301\tCalc I\tM-301: CALC I, Sec 10\tA+\t5".to_string(),
    ];
    let text = process_lines(&lines).unwrap();
    let expected = format!(
        "{}\nFall 2021\t10\tMath\tM\t301\tCalc I\tM-301: CALC I, Sec 10\t25\t0\t0\t0\t0\t0\t0\t0\t0\t0\t0\t0\t0",
        HEADER
    );
    assert_eq!(text, expected);
}

#[test]
fn process_lines_fails_whole_file_on_unknown_label() {
    let lines = vec![
        "Fall 2021\t10\tMath\tM\t301\tCalc I\tM-301: CALC I, Sec 10\tA\t20".to_string(),
        "Fall 2021\t10\tMath\tM\t301\tCalc I\tM-301: CALC I, Sec 10\tQ\t5".to_string(),
    ];
    match process_lines(&lines) {
        Err(ParseError::UnknownGradeLabel { label }) => assert_eq!(label, "Q"),
        other => panic!("expected an unknown-grade-label error, got {:?}", other),
    }
}

#[test]
fn process_lines_reports_first_malformed_line() {
    let lines = vec![
        "Fall 2021\t10\tMath\tM\t301\tCalc I\tM-301: CALC I, Sec 10\tA\t20".to_string(),
        "too\tfew\tfields".to_string(),
    ];
    match process_lines(&lines) {
        Err(ParseError::FieldCountMismatch { expected, actual }) => {
            assert_eq!(expected, 9);
            assert_eq!(actual, 3);
        }
        other => panic!("expected a field-count error, got {:?}", other),
    }
}

#[test]
fn empty_input_renders_header_only() {
    let lines: Vec<String> = Vec::new();
    let text = process_lines(&lines).unwrap();
    assert_eq!(text, HEADER);
}

#[test]
fn parse_then_aggregate_matches_direct_rows() {
    let line = "Fall 2021\t10\tMath\tM\t301\tCalc I\tM-301: CALC I, Sec 10\tD-\t8";
    let parsed = parse_row(line).unwrap();
    let courses = aggregate(&vec![parsed]).unwrap();
    assert_eq!(courses[0].counts[10], 8);
}
