use node_svgcleaner::cleaner::{fixed_options, Cleaned, Cleaning, Progress, DEFAULT_MAX_PASSES};
use node_svgcleaner::error::{ErrorKind, RunError};
use node_svgcleaner::options::{IndentFork, SvgCleanerOptions};
use node_svgcleaner::pass::{PassOutcome, Run, Step};
use svgcleaner::cleaner;
use svgcleaner::{CleaningOptions, ParseOptions, WriteOptions};

const CIRCLE: &str = "<svg xmlns=\"http://www.w3.org/2000/svg\"><circle r=\"5\"/></svg>";

const TITLED: &str =
    "<svg xmlns=\"http://www.w3.org/2000/svg\"><title>ignored</title><circle r=\"5\"/></svg>";

const SCENARIO: &str = "<svg><title>ignored</title><g><rect fill=\"#ffffff\"/></g></svg>";

/// A `use` of a rectangle: the first pass resolves it and leaves a transform,
/// which only the second pass folds into the rectangle (with shapes kept).
const USED_RECT: &str = "<svg xmlns=\"http://www.w3.org/2000/svg\" \
xmlns:xlink=\"http://www.w3.org/1999/xlink\"><defs><rect id=\"r\" width=\"10\" height=\"10\"/>\
</defs><use xlink:href=\"#r\" x=\"5\" y=\"5\"/></svg>";

const USED_RECT_AFTER_ONE_PASS: &str = "<svg xmlns=\"http://www.w3.org/2000/svg\">\
<rect width=\"10\" height=\"10\" transform=\"translate(5 5)\"/></svg>";

const USED_RECT_CONVERGED: &str = "<svg xmlns=\"http://www.w3.org/2000/svg\">\
<rect width=\"10\" height=\"10\" x=\"5\" y=\"5\"/></svg>";

/// The engine writes every attribute of the gradient out: the result is
/// longer than the input.
const GRADIENT: &str = "<svg xmlns=\"http://www.w3.org/2000/svg\" \
xmlns:xlink=\"http://www.w3.org/1999/xlink\"><linearGradient id=\"a\"><stop offset=\"0\" \
stop-color=\"red\"/><stop offset=\"1\" stop-color=\"blue\"/></linearGradient>\
<rect width=\"10\" height=\"10\" fill=\"url(#a)\"/></svg>";

const GRADIENT_CLEANED: &str = "<svg xmlns=\"http://www.w3.org/2000/svg\" \
xmlns:xlink=\"http://www.w3.org/1999/xlink\"><linearGradient id=\"a\" \
gradientUnits=\"objectBoundingBox\" spreadMethod=\"pad\" x1=\"0%\" y1=\"0%\" x2=\"100%\" \
y2=\"0%\"><stop stop-color=\"#f00\" stop-opacity=\"1\" offset=\"0\"/><stop stop-color=\"#00f\" \
stop-opacity=\"1\" offset=\"1\"/></linearGradient><path fill=\"url(#a)\" \
d=\"m0 0h10v10h-10z\"/></svg>";

/// The engine refuses to clean a document with an animation.
const ANIMATED: &str = "<svg xmlns=\"http://www.w3.org/2000/svg\"><rect width=\"10\" \
height=\"10\"><animate attributeName=\"x\"/></rect></svg>";

/// One pass of the engine over `text`.
fn engine_pass(
    text: &str,
    parse: &ParseOptions,
    cleaning: &CleaningOptions,
    write: &WriteOptions,
) -> PassOutcome {
    let mut doc = match cleaner::parse_data(text, parse) {
        Ok(doc) => doc,
        Err(e) => return PassOutcome::ParseFailed(e.to_string()),
    };
    if cleaner::clean_doc(&mut doc, cleaning, write).is_err() {
        return PassOutcome::CleanFailed;
    }
    let mut buf = Vec::new();
    cleaner::write_buffer(&doc, write, &mut buf);
    PassOutcome::Written(String::from_utf8(buf).unwrap())
}

/// The passes alone, without the guard.
fn run(
    input: &str,
    options: SvgCleanerOptions,
    multipass: bool,
    max_passes: usize,
) -> Result<String, RunError> {
    let (parse, cleaning, write, _) = options.split();
    let mut state = Run::start(input, multipass, max_passes);
    loop {
        let outcome = engine_pass(state.text(), &parse, &cleaning, &write);
        match state.step(outcome) {
            Step::Again(next) => state = next,
            Step::Done(text) => return Ok(text),
            Step::Failed(e) => return Err(e),
        }
    }
}

/// A whole cleaning with the engine.
fn clean(content: &str, options: SvgCleanerOptions) -> Result<Cleaned, RunError> {
    let (parse, cleaning, write, flags) = options.split();
    let mut state = Cleaning::start(content, flags, DEFAULT_MAX_PASSES);
    loop {
        let outcome = engine_pass(state.text(), &parse, &cleaning, &write);
        match state.step(outcome) {
            Progress::Again(next) => state = next,
            Progress::Finished(result) => return result,
        }
    }
}

fn with(change: fn(&mut SvgCleanerOptions)) -> SvgCleanerOptions {
    let mut options = SvgCleanerOptions::default();
    change(&mut options);
    options
}

fn keeping_shapes() -> SvgCleanerOptions {
    with(|o| o.convert_shapes = false)
}

#[test]
fn pass_follows_the_options_that_split_gives() {
    let (parse, cleaning, write, _) = SvgCleanerOptions::default().split();
    match engine_pass(TITLED, &parse, &cleaning, &write) {
        PassOutcome::Written(text) => assert_eq!(text, CIRCLE),
        other => panic!("unexpected outcome {:?}", other),
    }

    let (parse, cleaning, write, _) = with(|o| o.use_single_quote = true).split();
    match engine_pass(TITLED, &parse, &cleaning, &write) {
        PassOutcome::Written(text) => {
            assert_eq!(text, "<svg xmlns='http://www.w3.org/2000/svg'><circle r='5'/></svg>")
        }
        other => panic!("unexpected outcome {:?}", other),
    }

    let (parse, cleaning, write, _) = with(|o| o.remove_title = false).split();
    match engine_pass(TITLED, &parse, &cleaning, &write) {
        PassOutcome::Written(text) => assert_eq!(text, TITLED),
        other => panic!("unexpected outcome {:?}", other),
    }
}

#[test]
fn single_pass_run_returns_the_first_pass() {
    let out = run(USED_RECT, keeping_shapes(), false, 10).unwrap();
    assert_eq!(out, USED_RECT_AFTER_ONE_PASS);
}

#[test]
fn multipass_run_goes_on_to_the_converged_text() {
    let out = run(USED_RECT, keeping_shapes(), true, 10).unwrap();
    assert_eq!(out, USED_RECT_CONVERGED);
}

#[test]
fn single_pass_and_multipass_diverge_on_a_used_rectangle() {
    let single = run(USED_RECT, keeping_shapes(), false, 10).unwrap();
    let multi = run(USED_RECT, keeping_shapes(), true, 10).unwrap();
    assert_eq!(single.len(), 103);
    assert_eq!(multi.len(), 88);
    assert!(multi.len() < single.len());
    assert!(single.len() < USED_RECT.len());
}

#[test]
fn multipass_run_with_the_engine_stops_at_the_limit() {
    assert_eq!(run(USED_RECT, keeping_shapes(), true, 0).unwrap(), USED_RECT_AFTER_ONE_PASS);
    assert_eq!(run(USED_RECT, keeping_shapes(), true, 1).unwrap(), USED_RECT_AFTER_ONE_PASS);
    assert_eq!(run(USED_RECT, keeping_shapes(), true, 2).unwrap(), USED_RECT_CONVERGED);
    assert_eq!(run(USED_RECT, keeping_shapes(), true, usize::MAX).unwrap(), USED_RECT_CONVERGED);
}

#[test]
fn run_fails_when_the_input_cannot_be_parsed() {
    for multipass in [false, true] {
        let err = run("hello", SvgCleanerOptions::default(), multipass, 10).unwrap_err();
        assert_eq!(err.kind(), ErrorKind::Parse);
        assert_eq!(err.message(), "unknown token at 1:1");
    }
    let err = run("", SvgCleanerOptions::default(), false, 10).unwrap_err();
    assert_eq!(err.kind(), ErrorKind::Parse);
    assert_eq!(err.message(), "the document does not have any nodes");
}

#[test]
fn run_returns_the_input_when_the_engine_cannot_clean() {
    for multipass in [false, true] {
        let out = run(ANIMATED, SvgCleanerOptions::default(), multipass, 10).unwrap();
        assert_eq!(out, ANIMATED);
    }
}

#[test]
fn run_may_end_on_more_than_it_was_given() {
    let out = run(GRADIENT, SvgCleanerOptions::default(), false, 10).unwrap();
    assert_eq!(out, GRADIENT_CLEANED);
    assert!(out.len() > GRADIENT.len());
}

#[test]
fn scenario_with_the_defaults() {
    // The title and the group go. So does the rectangle: it has no size, and
    // the engine removes what cannot be seen.
    let cleaned = clean(SCENARIO, SvgCleanerOptions::default()).unwrap();
    assert!(!cleaned.content.contains("<title"));
    assert!(!cleaned.content.contains("<g"));
    assert_eq!(cleaned.content, "<svg/>");
    assert_eq!(cleaned.length, 6);
}

#[test]
fn scenario_with_the_rectangle_kept() {
    let options = with(|o| {
        o.remove_invisible_elements = false;
        o.convert_shapes = false;
    });
    let cleaned = clean(SCENARIO, options).unwrap();
    assert!(!cleaned.content.contains("<title"));
    assert!(!cleaned.content.contains("<g"));
    assert!(cleaned.content.contains("<rect"));
    assert!(cleaned.content.contains("fill=\"#fff\""));
    assert_eq!(cleaned.content, "<svg><rect fill=\"#fff\" width=\"0\" height=\"0\"/></svg>");
    assert_eq!(cleaned.length, 51);
}

#[test]
fn scenario_with_other_formatting() {
    let options = with(|o| {
        o.remove_invisible_elements = false;
        o.convert_shapes = false;
        o.indent = IndentFork::Spaces(2);
        o.use_single_quote = true;
        o.trim_hex_colors = false;
    });
    let cleaned = clean(SCENARIO, options).unwrap();
    assert_eq!(
        cleaned.content,
        "<svg>\n  <rect fill='#ffffff' width='0' height='0'/>\n</svg>\n"
    );
    assert_eq!(cleaned.length, 59);
}

#[test]
fn length_of_a_cleaned_document_counts_bytes() {
    let input = "<svg xmlns=\"http://www.w3.org/2000/svg\"><text x=\"1\" y=\"2\">h\u{e9}llo \
\u{4e16}\u{754c}</text></svg>";
    let cleaned = clean(input, SvgCleanerOptions::default()).unwrap();
    assert_eq!(cleaned.content, input);
    assert_eq!(cleaned.length, 84);
    assert_eq!(cleaned.length, cleaned.content.len());
    assert_eq!(cleaned.content.chars().count(), 79);
}

#[test]
fn growth_by_the_engine_is_refused_by_default() {
    let err = clean(GRADIENT, SvgCleanerOptions::default()).unwrap_err();
    assert_eq!(err.kind(), ErrorKind::OutputTooLarge);
    assert_eq!(err.message(), "Cleaned file is bigger than original.");
}

#[test]
fn growth_by_the_engine_is_accepted_when_allowed() {
    let cleaned = clean(GRADIENT, with(|o| o.allow_bigger_file = true)).unwrap();
    assert_eq!(cleaned.content, GRADIENT_CLEANED);
    assert_eq!(cleaned.length, 364);
    assert!(cleaned.length > GRADIENT.len());
}

#[test]
fn without_growth_a_result_is_no_longer_than_the_input() {
    for input in [CIRCLE, SCENARIO, USED_RECT, GRADIENT, ANIMATED] {
        for multipass in [false, true] {
            let mut options = SvgCleanerOptions::default();
            options.multipass = multipass;
            match clean(input, options) {
                Ok(cleaned) => assert!(cleaned.length <= input.len()),
                Err(e) => assert_eq!(e.kind(), ErrorKind::OutputTooLarge),
            }
        }
    }
}

#[test]
fn newline_is_appended_after_the_size_check() {
    // The circle cleans to itself, so the result has the input's length plus
    // the newline.
    let cleaned = clean(CIRCLE, with(|o| o.append_newline = true)).unwrap();
    assert_eq!(cleaned.length, CIRCLE.len() + 1);
    assert_eq!(cleaned.content, format!("{}\n", CIRCLE));
    assert!(cleaned.content.ends_with("</svg>\n"));
}

#[test]
fn single_pass_keeps_what_only_a_second_pass_removes() {
    let single = clean(USED_RECT, keeping_shapes()).unwrap();
    assert_eq!(single.content, USED_RECT_AFTER_ONE_PASS);
    let multi = clean(
        USED_RECT,
        with(|o| {
            o.convert_shapes = false;
            o.multipass = true;
        }),
    )
    .unwrap();
    assert_eq!(multi.content, USED_RECT_CONVERGED);
    assert!(multi.length < single.length);
}

#[test]
fn cleaning_a_multipass_result_again_changes_nothing() {
    for input in [CIRCLE, SCENARIO, USED_RECT, GRADIENT] {
        for keep_shapes in [false, true] {
            let mut options = SvgCleanerOptions::default();
            options.multipass = true;
            options.allow_bigger_file = true;
            options.convert_shapes = !keep_shapes;
            let first = clean(input, options).unwrap();
            let second = clean(&first.content, options).unwrap();
            assert_eq!(second.content, first.content);
            assert_eq!(second.length, first.length);
        }
    }
}

#[test]
fn text_that_is_no_document_fails_to_parse() {
    let err = clean("hello", SvgCleanerOptions::default()).unwrap_err();
    assert_eq!(err.kind(), ErrorKind::Parse);
    assert_eq!(err.message(), "unknown token at 1:1");
    let err = clean("", with(|o| o.allow_bigger_file = true)).unwrap_err();
    assert_eq!(err.kind(), ErrorKind::Parse);
    assert_eq!(err.message(), "the document does not have any nodes");
}

#[test]
fn cleaning_failure_of_the_engine_is_absorbed() {
    // The engine cannot clean an animated document. No error reaches the
    // caller: the input comes back as it was.
    let cleaned = clean(ANIMATED, SvgCleanerOptions::default()).unwrap();
    assert_eq!(cleaned.content, ANIMATED);
    assert_eq!(cleaned.length, ANIMATED.len());
    let cleaned = clean(ANIMATED, with(|o| o.multipass = true)).unwrap();
    assert_eq!(cleaned.content, ANIMATED);
}

#[test]
fn fixed_options_clean_like_the_defaults_with_multipass() {
    assert_eq!(clean(SCENARIO, fixed_options()).unwrap().content, "<svg/>");
    for input in [CIRCLE, SCENARIO, USED_RECT, ANIMATED] {
        let fixed = clean(input, fixed_options()).unwrap();
        let multi = clean(input, with(|o| o.multipass = true)).unwrap();
        assert_eq!(fixed.content, multi.content);
    }
    let err = clean(GRADIENT, fixed_options()).unwrap_err();
    assert_eq!(err.kind(), ErrorKind::OutputTooLarge);
}

#[test]
fn cleaning_a_result_with_its_newline_again_changes_nothing() {
    // The engine drops the trailing newline when it parses, and the guard
    // puts it back.
    for input in [CIRCLE, SCENARIO, USED_RECT, TITLED] {
        for multipass in [false, true] {
            let mut options = SvgCleanerOptions::default();
            options.multipass = multipass;
            options.append_newline = true;
            options.convert_shapes = false;
            let first = clean(input, options).unwrap();
            assert!(first.content.ends_with("\n"));
            if multipass {
                let second = clean(&first.content, options).unwrap();
                assert_eq!(second.content, first.content);
                assert_eq!(second.length, first.length);
            }
        }
    }
    let once = clean(CIRCLE, with(|o| o.append_newline = true)).unwrap();
    let twice = clean(&once.content, with(|o| o.append_newline = true)).unwrap();
    assert_eq!(twice.content, format!("{}\n", CIRCLE));
    assert_eq!(twice.length, 62);
}
