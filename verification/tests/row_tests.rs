use gradedist::row::{parse_row, ParseError};

fn valid_line() -> String {
    "Fall 2021\t10\tMath\tM\t301\tCalc I\tM-301: CALC I, Sec 10\tA\t20".to_string()
}

#[test]
fn parse_valid_row() {
    let row = parse_row(&valid_line()).unwrap();
    assert_eq!(row.semester, "Fall 2021");
    assert_eq!(row.section, 10);
    assert_eq!(row.department, "Math");
    assert_eq!(row.department_code, "M");
    assert_eq!(row.course_number, "301");
    assert_eq!(row.course_title, "Calc I");
    assert_eq!(row.course_full_title, "M-301: CALC I, Sec 10");
    assert_eq!(row.grade, "A");
    assert_eq!(row.grade_count, 20);
}

#[test]
fn parse_is_deterministic_on_same_text() {
    let a = parse_row(&valid_line()).unwrap();
    let b = parse_row(&valid_line()).unwrap();
    assert_eq!(a.semester, b.semester);
    assert_eq!(a.section, b.section);
    assert_eq!(a.department, b.department);
    assert_eq!(a.department_code, b.department_code);
    assert_eq!(a.course_number, b.course_number);
    assert_eq!(a.course_title, b.course_title);
    assert_eq!(a.course_full_title, b.course_full_title);
    assert_eq!(a.grade, b.grade);
    assert_eq!(a.grade_count, b.grade_count);
}

#[test]
fn eight_fields_rejected() {
    let line = "Fall 2021\t10\tMath\tM\t301\tCalc I\tM-301: CALC I, Sec 10\tA";
    match parse_row(line) {
        Err(ParseError::FieldCountMismatch { expected, actual }) => {
            assert_eq!(expected, 9);
            assert_eq!(actual, 8);
        }
        other => panic!("expected a field-count error, got {:?}", other),
    }
}

#[test]
fn ten_fields_rejected() {
    let line = "Fall 2021\t10\tMath\tM\t301\tCalc I\tM-301: CALC I, Sec 10\tA\t20\textra";
    match parse_row(line) {
        Err(ParseError::FieldCountMismatch { expected, actual }) => {
            assert_eq!(expected, 9);
            assert_eq!(actual, 10);
        }
        other => panic!("expected a field-count error, got {:?}", other),
    }
}

#[test]
fn grade_count_with_thousands_separator() {
    let line = "Fall 2021\t10\tMath\tM\t301\tCalc I\tM-301: CALC I, Sec 10\tA\t1,234";
    let row = parse_row(line).unwrap();
    assert_eq!(row.grade_count, 1234);
}

#[test]
fn course_number_is_trimmed() {
    let line = "Fall 2021\t10\tMath\tM\t 301 \tCalc I\tM-301: CALC I, Sec 10\tA\t20";
    let row = parse_row(line).unwrap();
    assert_eq!(row.course_number, "301");
    assert_eq!(row.semester, "Fall 2021");
}

#[test]
fn non_numeric_section_rejected() {
    let line = "Fall 2021\tten\tMath\tM\t301\tCalc I\tM-301: CALC I, Sec 10\tA\t20";
    match parse_row(line) {
        Err(ParseError::InvalidInteger { field }) => assert_eq!(field, "ten"),
        other => panic!("expected an invalid-integer error, got {:?}", other),
    }
}

#[test]
fn oversized_grade_count_rejected() {
    let line = "Fall 2021\t10\tMath\tM\t301\tCalc I\tM-301: CALC I, Sec 10\tA\t70,000";
    match parse_row(line) {
        Err(ParseError::InvalidInteger { field }) => assert_eq!(field, "70,000"),
        other => panic!("expected an invalid-integer error, got {:?}", other),
    }
}

#[test]
fn leading_zeros_accepted() {
    let line = "Fall 2021\t007\tMath\tM\t301\tCalc I\tM-301: CALC I, Sec 10\tA\t0";
    let row = parse_row(line).unwrap();
    assert_eq!(row.section, 7);
    assert_eq!(row.grade_count, 0);
}

#[test]
fn grade_count_boundary() {
    let ok = "Fall 2021\t10\tMath\tM\t301\tCalc I\tM-301: CALC I, Sec 10\tA\t65,535";
    assert_eq!(parse_row(ok).unwrap().grade_count, 65535);
    let too_big = "Fall 2021\t10\tMath\tM\t301\tCalc I\tM-301: CALC I, Sec 10\tA\t65,536";
    assert!(matches!(
        parse_row(too_big),
        Err(ParseError::InvalidInteger { .. })
    ));
}

#[test]
fn every_comma_is_stripped() {
    let line = "Fall 2021\t10\tMath\tM\t301\tCalc I\tM-301: CALC I, Sec 10\tA\t1,2,3,4";
    assert_eq!(parse_row(line).unwrap().grade_count, 1234);
}

#[test]
fn empty_grade_count_rejected() {
    let line = "Fall 2021\t10\tMath\tM\t301\tCalc I\tM-301: CALC I, Sec 10\tA\t";
    assert!(matches!(parse_row(line), Err(ParseError::InvalidInteger { .. })));
}
