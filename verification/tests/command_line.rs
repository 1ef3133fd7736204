use raytracer::cli::{
    classify, exit_status, parse_args, Argument, Chosen, PathFacts, Refusal, Selection, Span,
};

fn facts(extension: Option<&str>, exists: bool) -> PathFacts {
    PathFacts { extension: extension.map(|e| e.as_bytes().to_vec()), exists }
}

fn nothing() -> PathFacts {
    facts(None, false)
}

fn run(args: &[(&str, PathFacts)]) -> Result<(Chosen, Chosen), Refusal> {
    let texts: Vec<Vec<u8>> = args.iter().map(|(a, _)| a.as_bytes().to_vec()).collect();
    let known: Vec<PathFacts> = args.iter().map(|(_, f)| f.clone()).collect();
    parse_args(&texts, &known)
}

fn value_of<'a>(arg: &'a str, span: Span) -> &'a str {
    &arg[span.start..span.end]
}

#[test]
fn help_flag_is_recognised() {
    assert_eq!(classify(b"--help"), Argument::Help);
    assert_eq!(classify(b"--helpx"), Argument::Other);
    assert_eq!(classify(b"--hel"), Argument::Other);
    assert_eq!(classify(b"-help"), Argument::Other);
}

#[test]
fn source_and_output_values_are_found() {
    assert_eq!(classify(b"--source=a.obj"), Argument::Source(Span { start: 9, end: 14 }));
    assert_eq!(classify(b"--output=out.ppm"), Argument::Output(Span { start: 9, end: 16 }));
    assert_eq!(value_of("--source=a.obj", Span { start: 9, end: 14 }), "a.obj");
}

#[test]
fn value_ends_at_the_next_equals_sign() {
    assert_eq!(classify(b"--source=a=b.obj"), Argument::Source(Span { start: 9, end: 10 }));
    assert_eq!(classify(b"--output=="), Argument::Output(Span { start: 9, end: 9 }));
}

#[test]
fn value_may_be_empty() {
    assert_eq!(classify(b"--source="), Argument::Source(Span { start: 9, end: 9 }));
    assert_eq!(classify(b"--output="), Argument::Output(Span { start: 9, end: 9 }));
}

#[test]
fn other_arguments_are_passed_over() {
    assert_eq!(classify(b""), Argument::Other);
    assert_eq!(classify(b"graphics"), Argument::Other);
    assert_eq!(classify(b"--source"), Argument::Other);
    assert_eq!(classify(b"--sourcE=a.obj"), Argument::Other);
    assert_eq!(classify(b" --source=a.obj"), Argument::Other);
    assert_eq!(classify(b"--outputs=a.ppm"), Argument::Other);
}

#[test]
fn both_paths_are_taken() {
    let result = run(&[
        ("graphics", nothing()),
        ("--source=mesh.obj", facts(Some("obj"), true)),
        ("--output=image.ppm", facts(Some("ppm"), false)),
    ]);
    assert_eq!(
        result,
        Ok((
            Chosen { argument: 1, value: Span { start: 9, end: 17 } },
            Chosen { argument: 2, value: Span { start: 9, end: 18 } }
        ))
    );
}

#[test]
fn order_of_the_two_paths_does_not_matter() {
    let result = run(&[
        ("--output=image.ppm", facts(Some("ppm"), true)),
        ("--source=mesh.obj", facts(Some("obj"), true)),
    ]);
    assert_eq!(
        result,
        Ok((
            Chosen { argument: 1, value: Span { start: 9, end: 17 } },
            Chosen { argument: 0, value: Span { start: 9, end: 18 } }
        ))
    );
}

#[test]
fn later_argument_replaces_an_earlier_one() {
    let result = run(&[
        ("--source=a.obj", facts(Some("obj"), true)),
        ("--output=a.ppm", facts(Some("ppm"), true)),
        ("--source=bb.obj", facts(Some("obj"), true)),
        ("--output=ccc.ppm", facts(Some("ppm"), true)),
    ]);
    assert_eq!(
        result,
        Ok((
            Chosen { argument: 2, value: Span { start: 9, end: 15 } },
            Chosen { argument: 3, value: Span { start: 9, end: 16 } }
        ))
    );
}

#[test]
fn help_ends_the_run() {
    let result = run(&[
        ("--source=mesh.obj", facts(Some("obj"), true)),
        ("--help", nothing()),
        ("--output=image.ppm", facts(Some("ppm"), false)),
    ]);
    assert_eq!(result, Err(Refusal::Help));
    assert_eq!(run(&[("--help", nothing())]), Err(Refusal::Help));
}

#[test]
fn source_with_another_extension_is_refused() {
    let result = run(&[
        ("--source=mesh.stl", facts(Some("stl"), true)),
        ("--output=image.ppm", facts(Some("ppm"), false)),
    ]);
    assert_eq!(result, Err(Refusal::SourceFormat));
    assert_eq!(run(&[("--source=mesh", facts(None, true))]), Err(Refusal::SourceFormat));
    assert_eq!(run(&[("--source=m.OBJ", facts(Some("OBJ"), true))]), Err(Refusal::SourceFormat));
    assert_eq!(run(&[("--source=m.objx", facts(Some("objx"), true))]), Err(Refusal::SourceFormat));
    assert_eq!(run(&[("--source=m.ob", facts(Some("ob"), true))]), Err(Refusal::SourceFormat));
}

#[test]
fn source_that_does_not_exist_is_refused() {
    let result = run(&[
        ("--source=mesh.obj", facts(Some("obj"), false)),
        ("--output=image.ppm", facts(Some("ppm"), false)),
    ]);
    assert_eq!(result, Err(Refusal::SourceMissing));
}

#[test]
fn source_format_is_checked_before_existence() {
    assert_eq!(run(&[("--source=mesh.stl", facts(Some("stl"), false))]), Err(Refusal::SourceFormat));
}

#[test]
fn output_with_another_extension_is_refused() {
    let result = run(&[
        ("--source=mesh.obj", facts(Some("obj"), true)),
        ("--output=image.png", facts(Some("png"), false)),
    ]);
    assert_eq!(result, Err(Refusal::OutputFormat));
    assert_eq!(run(&[("--output=image", facts(None, true))]), Err(Refusal::OutputFormat));
}

#[test]
fn first_refusal_wins() {
    let result = run(&[
        ("--output=image.png", facts(Some("png"), false)),
        ("--source=mesh.stl", facts(Some("stl"), true)),
        ("--help", nothing()),
    ]);
    assert_eq!(result, Err(Refusal::OutputFormat));
}

#[test]
fn missing_arguments_are_refused() {
    assert_eq!(run(&[]), Err(Refusal::Incomplete));
    assert_eq!(run(&[("graphics", nothing())]), Err(Refusal::Incomplete));
    assert_eq!(run(&[("--source=mesh.obj", facts(Some("obj"), true))]), Err(Refusal::Incomplete));
    assert_eq!(run(&[("--output=image.ppm", facts(Some("ppm"), true))]), Err(Refusal::Incomplete));
}

#[test]
fn selection_step_by_step() {
    let start = Selection::new();
    assert_eq!(start, Selection { source: None, output: None });
    assert_eq!(start.finish(), Err(Refusal::Incomplete));
    let one = start.accept(4, b"--source=a.obj", &facts(Some("obj"), true)).unwrap();
    assert_eq!(
        one,
        Selection {
            source: Some(Chosen { argument: 4, value: Span { start: 9, end: 14 } }),
            output: None
        }
    );
    assert_eq!(one.accept(5, b"whatever", &nothing()), Ok(one));
    assert_eq!(one.accept(5, b"--help", &nothing()), Err(Refusal::Help));
    let two = one.accept(6, b"--output=b.ppm", &facts(Some("ppm"), false)).unwrap();
    assert_eq!(
        two.finish(),
        Ok((
            Chosen { argument: 4, value: Span { start: 9, end: 14 } },
            Chosen { argument: 6, value: Span { start: 9, end: 14 } }
        ))
    );
}

#[test]
fn exit_status_is_zero_only_for_help() {
    assert_eq!(exit_status(Refusal::Help), 0);
    assert_eq!(exit_status(Refusal::SourceFormat), 1);
    assert_eq!(exit_status(Refusal::SourceMissing), 1);
    assert_eq!(exit_status(Refusal::OutputFormat), 1);
    assert_eq!(exit_status(Refusal::Incomplete), 1);
}
