use texwatch::output::{classify_bib_output, classify_tex_output, split_lines};

#[test]
fn split_lines_separates_at_newlines() {
    let out = b"a\nb\nc".to_vec();
    let lines = split_lines(&out);
    assert_eq!(lines, vec![b"a".to_vec(), b"b".to_vec(), b"c".to_vec()]);
}

#[test]
fn split_lines_ignores_final_newline_and_strips_cr() {
    let out = b"first\r\nsecond\n".to_vec();
    let lines = split_lines(&out);
    assert_eq!(lines, vec![b"first".to_vec(), b"second".to_vec()]);

    let empty = Vec::new();
    assert_eq!(split_lines(&empty), Vec::<Vec<u8>>::new());

    let blank_line = b"a\n\nb".to_vec();
    assert_eq!(
        split_lines(&blank_line),
        vec![b"a".to_vec(), b"".to_vec(), b"b".to_vec()]
    );
}

#[test]
fn tex_output_without_error_sigil_is_ok() {
    let out = b"This is the compiler\nOutput written on main.hnt\n".to_vec();
    let report = classify_tex_output(&out);
    assert!(report.ok);
    assert!(report.error_lines.is_empty());
}

#[test]
fn tex_output_error_lines_start_with_bang() {
    let out = b"running\n! Undefined control sequence.\nl.5 \\oops\n! Emergency stop.\n".to_vec();
    let report = classify_tex_output(&out);
    assert!(!report.ok);
    assert_eq!(
        report.error_lines,
        vec![
            b"! Undefined control sequence.".to_vec(),
            b"! Emergency stop.".to_vec()
        ]
    );
}

#[test]
fn bib_output_warn_lines_do_not_fail_the_run() {
    let out = b"INFO: reading\nWARN Legacy entry type\n".to_vec();
    let report = classify_bib_output(&out);
    assert!(report.ok);
    assert!(report.error_lines.is_empty());
    assert_eq!(report.warn_lines, vec![b"WARN Legacy entry type".to_vec()]);
}

#[test]
fn bib_output_error_lines_fail_the_run() {
    let out = b"WARN first\nERROR Malformed entry\ndone\n".to_vec();
    let report = classify_bib_output(&out);
    assert!(!report.ok);
    assert_eq!(report.error_lines, vec![b"ERROR Malformed entry".to_vec()]);
    assert_eq!(report.warn_lines, vec![b"WARN first".to_vec()]);
}
