use ext2lower::err::DstPathFsError;
use ext2lower::err::PathFsError;
use ext2lower::err::PathStrError;
use ext2lower::err_fmt;
use ext2lower::rename::finish_rename;
use ext2lower::rename::process_dst_probe;
use ext2lower::rename::process_file_name;
use ext2lower::rename::process_src_probe;
use ext2lower::renamer::DstProbe;
use ext2lower::renamer::Rename;
use ext2lower::renamer::Renamer;
use ext2lower::renamer::SrcProbe;
use ext2lower::reporter::Reporter;

#[test]
fn simulate_reports_the_rename_on_the_success_channel() {
    let renamer = Renamer::resolve(false);
    let mut reporter = Reporter::new();
    let line = String::from("photo.JPG");
    let rename = process_file_name(&mut reporter, &line).expect("a rename");
    assert_eq!(rename.src, String::from("photo.JPG"));
    assert_eq!(rename.dst, String::from("photo.jpg"));
    let go_on = process_src_probe(
        &renamer,
        &mut reporter,
        &rename,
        SrcProbe::Meta { is_file: true },
    );
    assert!(go_on);
    let perform = process_dst_probe(&renamer, &mut reporter, &rename, DstProbe::Exists(false));
    assert!(!perform);
    assert_eq!(reporter.success, vec![String::from("photo.JPG -> photo.jpg\n")]);
    assert!(reporter.diagnostic.is_empty());
}

#[test]
fn lowercase_extension_goes_to_the_diagnostic_channel() {
    let mut reporter = Reporter::new();
    let line = String::from("photo.jpg");
    let r = process_file_name(&mut reporter, &line);
    assert!(r.is_none());
    assert!(reporter.success.is_empty());
    assert_eq!(
        reporter.diagnostic,
        vec![String::from("photo.jpg: extension is lowercase\n")]
    );
}

#[test]
fn missing_extension_goes_to_the_diagnostic_channel() {
    let mut reporter = Reporter::new();
    let line = String::from("noext");
    let r = process_file_name(&mut reporter, &line);
    assert!(r.is_none());
    assert_eq!(
        reporter.diagnostic,
        vec![String::from("noext: missing extension\n")]
    );
}

#[test]
fn non_regular_source_ends_the_line_before_the_destination_check() {
    let renamer = Renamer::resolve(false);
    let mut reporter = Reporter::new();
    let line = String::from("dir.JPG");
    let rename = process_file_name(&mut reporter, &line).expect("a rename");
    let go_on = process_src_probe(
        &renamer,
        &mut reporter,
        &rename,
        SrcProbe::Meta { is_file: false },
    );
    assert!(!go_on);
    assert!(reporter.success.is_empty());
    assert_eq!(
        reporter.diagnostic,
        vec![String::from("dir.JPG: not a regular file\n")]
    );
}

#[test]
fn existing_destination_goes_to_the_diagnostic_channel() {
    let renamer = Renamer::resolve(false);
    let mut reporter = Reporter::new();
    let line = String::from("a.JPG");
    let rename = process_file_name(&mut reporter, &line).expect("a rename");
    let go_on = process_src_probe(
        &renamer,
        &mut reporter,
        &rename,
        SrcProbe::Meta { is_file: true },
    );
    assert!(go_on);
    let perform = process_dst_probe(&renamer, &mut reporter, &rename, DstProbe::Exists(true));
    assert!(!perform);
    assert!(reporter.success.is_empty());
    assert_eq!(
        reporter.diagnostic,
        vec![String::from("a.JPG: Exists: a.jpg\n")]
    );
}

#[test]
fn execute_mode_directs_and_then_reports_the_rename() {
    let renamer = Renamer::resolve(true);
    let mut reporter = Reporter::new();
    let line = String::from("a.JPG");
    let rename = process_file_name(&mut reporter, &line).expect("a rename");
    let go_on = process_src_probe(
        &renamer,
        &mut reporter,
        &rename,
        SrcProbe::Meta { is_file: true },
    );
    assert!(go_on);
    let perform = process_dst_probe(&renamer, &mut reporter, &rename, DstProbe::Exists(false));
    assert!(perform);
    assert!(reporter.success.is_empty());
    assert!(reporter.diagnostic.is_empty());
    finish_rename(&mut reporter, &rename, Ok(()));
    assert_eq!(reporter.success, vec![String::from("a.JPG -> a.jpg\n")]);
    assert!(reporter.diagnostic.is_empty());
}

#[test]
fn simulate_and_execute_report_the_same_success_text() {
    let line = String::from("a.JPG");

    let simulating = Renamer::resolve(false);
    let mut simulated = Reporter::new();
    let rename = process_file_name(&mut simulated, &line).expect("a rename");
    assert!(process_src_probe(
        &simulating,
        &mut simulated,
        &rename,
        SrcProbe::Meta { is_file: true },
    ));
    process_dst_probe(&simulating, &mut simulated, &rename, DstProbe::Exists(false));

    let executing = Renamer::resolve(true);
    let mut executed = Reporter::new();
    let rename = process_file_name(&mut executed, &line).expect("a rename");
    assert!(process_src_probe(
        &executing,
        &mut executed,
        &rename,
        SrcProbe::Meta { is_file: true },
    ));
    let perform = process_dst_probe(&executing, &mut executed, &rename, DstProbe::Exists(false));
    assert!(perform);
    finish_rename(&mut executed, &rename, Ok(()));

    assert_eq!(simulated.success, executed.success);
    assert_eq!(simulated.diagnostic, executed.diagnostic);
}

#[test]
fn failed_rename_goes_to_the_diagnostic_channel() {
    let mut reporter = Reporter::new();
    let rename = Rename {
        src: String::from("a.JPG"),
        dst: String::from("a.jpg"),
    };
    finish_rename(&mut reporter, &rename, Err(String::from("disk full")));
    assert!(reporter.success.is_empty());
    assert_eq!(reporter.diagnostic, vec![String::from("a.JPG: disk full\n")]);
}

#[test]
fn source_probe_fault_is_reported_verbatim() {
    let renamer = Renamer::resolve(true);
    let mut reporter = Reporter::new();
    let rename = Rename {
        src: String::from("x.JPG"),
        dst: String::from("x.jpg"),
    };
    let go_on = process_src_probe(
        &renamer,
        &mut reporter,
        &rename,
        SrcProbe::Error(String::from("permission denied")),
    );
    assert!(!go_on);
    assert_eq!(
        reporter.diagnostic,
        vec![String::from("x.JPG: permission denied\n")]
    );
}

#[test]
fn destination_probe_fault_is_reported_verbatim() {
    let renamer = Renamer::resolve(true);
    let mut reporter = Reporter::new();
    let rename = Rename {
        src: String::from("x.JPG"),
        dst: String::from("x.jpg"),
    };
    let perform = process_dst_probe(
        &renamer,
        &mut reporter,
        &rename,
        DstProbe::Error(String::from("loop in links")),
    );
    assert!(!perform);
    assert_eq!(
        reporter.diagnostic,
        vec![String::from("x.JPG: loop in links\n")]
    );
}

#[test]
fn read_error_is_reported_raw() {
    let mut reporter = Reporter::new();
    reporter.report_stdin_read_error(&String::from("stream did not contain valid UTF-8"));
    assert_eq!(
        reporter.diagnostic,
        vec![String::from("stream did not contain valid UTF-8\n")]
    );
}

#[test]
fn several_lines_keep_their_order() {
    let renamer = Renamer::resolve(false);
    let mut reporter = Reporter::new();
    for line in vec![
        String::from("photo.JPG"),
        String::from("photo.jpg"),
        String::from("noext"),
        String::from("b.PNG"),
    ] {
        if let Some(rename) = process_file_name(&mut reporter, &line) {
            if process_src_probe(
                &renamer,
                &mut reporter,
                &rename,
                SrcProbe::Meta { is_file: true },
            ) {
                process_dst_probe(&renamer, &mut reporter, &rename, DstProbe::Exists(false));
            }
        }
    }
    assert_eq!(
        reporter.success,
        vec![
            String::from("photo.JPG -> photo.jpg\n"),
            String::from("b.PNG -> b.png\n"),
        ]
    );
    assert_eq!(
        reporter.diagnostic,
        vec![
            String::from("photo.jpg: extension is lowercase\n"),
            String::from("noext: missing extension\n"),
        ]
    );
}

#[test]
fn format_skip_builds_one_line() {
    let r = err_fmt::format_skip(&String::from("a.JPG"), "missing extension");
    assert_eq!(r, String::from("a.JPG: missing extension\n"));
}

#[test]
fn fixed_phrases_are_stable() {
    assert_eq!(
        err_fmt::src_str_err(&PathStrError::MissingFileName),
        "missing file name"
    );
    assert_eq!(
        err_fmt::src_str_err(&PathStrError::MissingExtension),
        "missing extension"
    );
    assert_eq!(
        err_fmt::src_str_err(&PathStrError::NonUnicodeExtension),
        "non-Unicode extension"
    );
    assert_eq!(
        err_fmt::src_str_err(&PathStrError::LowercaseExtension),
        "extension is lowercase"
    );
}

#[test]
fn fs_phrases_are_stable() {
    let dst = String::from("a.jpg");
    assert_eq!(
        err_fmt::fs_err(&PathFsError::Dst(DstPathFsError::Exists), &dst),
        String::from("Exists: a.jpg")
    );
    assert_eq!(
        err_fmt::fs_err(&PathFsError::Rename(String::from("crossed devices")), &dst),
        String::from("crossed devices")
    );
}
