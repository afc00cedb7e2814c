use pdfconv::auth::{expected_value, ApiKey, Unauthorized};
use pdfconv::command::{build_args, plan, ContentKind, ConvertError, Fault, ProcessOutput, Reply};
use pdfconv::engine::{eq_uncased, PdfEngine};
use pdfconv::form::{decode, DecodeError, FormFields};
use pdfconv::pipeline::{begin, step, Action, Event, Stage, TempKind};

fn key() -> Option<String> {
    Some("s3cret".to_string())
}

fn auth_ok() -> Vec<String> {
    vec!["Bearer s3cret".to_string()]
}

fn fields(markdown: &str, css: Option<&str>, engine: Option<&str>) -> Option<FormFields> {
    Some(FormFields {
        markdown: Some(markdown.to_string()),
        css: css.map(|c| c.to_string()),
        engine: engine.map(|e| e.to_string()),
    })
}

fn finish(a: Action) -> (Reply, Vec<String>) {
    match a {
        Action::Finish { reply, release } => (reply, release),
        _ => panic!("expected a reply"),
    }
}

fn exited(code: Option<i32>, stderr: &str) -> Event {
    Event::Exited(ProcessOutput {
        exit_code: code,
        stdout: b"ignored".to_vec(),
        stderr: stderr.as_bytes().to_vec(),
    })
}

#[test]
fn engine_names() {
    assert_eq!(PdfEngine::Weasyprint.name(), "weasyprint");
    assert_eq!(PdfEngine::Wkhtmltopdf.name(), "wkhtmltopdf");
    assert_eq!(PdfEngine::Pdflatex.to_text(), "pdflatex");
    assert_eq!(PdfEngine::default_choice(), PdfEngine::Weasyprint);
}

#[test]
fn engine_from_field_any_case() {
    assert_eq!(PdfEngine::from_field("weasyprint"), Some(PdfEngine::Weasyprint));
    assert_eq!(PdfEngine::from_field("WkHtmlToPdf"), Some(PdfEngine::Wkhtmltopdf));
    assert_eq!(PdfEngine::from_field("PDFLATEX"), Some(PdfEngine::Pdflatex));
    assert_eq!(PdfEngine::from_field("pdflate"), None);
    assert_eq!(PdfEngine::from_field(""), None);
    assert_eq!(PdfEngine::from_field("xelatex"), None);
}

#[test]
fn uncased_comparison() {
    assert!(eq_uncased("AbC", "aBc"));
    assert!(!eq_uncased("abc", "abd"));
    assert!(!eq_uncased("ab", "abc"));
    assert!(!eq_uncased("a[", "a{"));
}

#[test]
fn expected_header_values() {
    assert_eq!(expected_value(&key()), "Bearer s3cret");
    assert_eq!(expected_value(&None), "Bearer ");
}

#[test]
fn single_matching_header_passes() {
    let r = ApiKey::from_headers(&auth_ok(), &key());
    assert_eq!(r.ok().map(|k| k.value().to_string()), Some("Bearer s3cret".to_string()));
}

#[test]
fn missing_or_wrong_header_fails() {
    assert!(matches!(ApiKey::from_headers(&vec![], &key()), Err(Unauthorized)));
    assert!(ApiKey::from_headers(&vec!["Bearer other".to_string()], &key()).is_err());
    assert!(ApiKey::from_headers(&vec!["s3cret".to_string()], &key()).is_err());
    assert!(ApiKey::from_headers(&vec!["bearer s3cret".to_string()], &key()).is_err());
}

#[test]
fn unconfigured_credential_needs_bare_prefix() {
    assert!(ApiKey::from_headers(&vec!["Bearer ".to_string()], &None).is_ok());
    assert!(ApiKey::from_headers(&vec!["".to_string()], &None).is_err());
    assert!(ApiKey::from_headers(&vec!["Bearer x".to_string()], &None).is_err());
}

#[test]
fn two_authorization_headers_are_refused() {
    let twice = vec!["Bearer s3cret".to_string(), "Bearer s3cret".to_string()];
    assert!(ApiKey::from_headers(&twice, &key()).is_err());
    let mixed = vec!["Bearer s3cret".to_string(), "Bearer other".to_string()];
    let (stage, action) = begin(&mixed, &key(), fields("# Hi", None, None));
    assert!(stage.is_finished());
    let (reply, release) = finish(action);
    assert_eq!(reply.status, 401);
    assert!(release.is_empty());
}

#[test]
fn unauthorized_request_never_reaches_files() {
    let (stage, action) = begin(&vec![], &key(), fields("# Hi", None, Some("nonsense")));
    assert!(stage.is_finished());
    let (reply, release) = finish(action);
    assert_eq!(reply.status, 401);
    assert_eq!(reply.content, ContentKind::Unspecified);
    assert!(reply.body.is_empty());
    assert!(release.is_empty());
}

#[test]
fn decode_errors() {
    assert!(matches!(decode(None), Err(DecodeError::Malformed)));
    let no_md = Some(FormFields { markdown: None, css: None, engine: None });
    assert!(matches!(decode(no_md), Err(DecodeError::MissingMarkdown)));
    assert!(matches!(decode(fields("x", None, Some("troff"))), Err(DecodeError::UnknownEngine)));
}

#[test]
fn decode_keeps_absent_engine_absent() {
    let f = decode(fields("# T", Some("p{}"), None)).ok().unwrap();
    assert_eq!(f.markdown, "# T");
    assert_eq!(f.css, Some("p{}".to_string()));
    assert_eq!(f.engine, None);
    assert_eq!(f.resolved_engine(), PdfEngine::Weasyprint);
    let g = decode(fields("", None, Some("Pdflatex"))).ok().unwrap();
    assert_eq!(g.markdown, "");
    assert_eq!(g.engine, Some(PdfEngine::Pdflatex));
    assert_eq!(g.resolved_engine(), PdfEngine::Pdflatex);
}

#[test]
fn unknown_engine_is_refused_before_any_file() {
    let (stage, action) = begin(&auth_ok(), &key(), fields("# Hi", None, Some("lualatex")));
    assert!(stage.is_finished());
    let (reply, release) = finish(action);
    assert_eq!(reply.status, 400);
    assert!(release.is_empty());
}

#[test]
fn malformed_form_is_bad_request() {
    let (stage, action) = begin(&auth_ok(), &key(), None);
    assert!(stage.is_finished());
    assert_eq!(finish(action).0.status, 400);
}

#[test]
fn converter_arguments() {
    let a = build_args(PdfEngine::Wkhtmltopdf, "/tmp/o.pdf", None);
    assert_eq!(a, vec!["--output=/tmp/o.pdf", "--pdf-engine=wkhtmltopdf"]);
    let b = build_args(PdfEngine::Pdflatex, "/tmp/o.pdf", Some("/tmp/s.css"));
    assert_eq!(b, vec!["--output=/tmp/o.pdf", "--pdf-engine=pdflatex", "--css=/tmp/s.css"]);
    let inv = plan(&"# Doc".to_string(), PdfEngine::Weasyprint, "/o.pdf", None);
    assert_eq!(inv.program, "pandoc");
    assert_eq!(inv.input, "# Doc");
    assert_eq!(inv.args, vec!["--output=/o.pdf", "--pdf-engine=weasyprint"]);
}

#[test]
fn distinct_outputs_give_distinct_invocations() {
    let a = build_args(PdfEngine::Weasyprint, "/tmp/a.pdf", Some("/tmp/s.css"));
    let b = build_args(PdfEngine::Weasyprint, "/tmp/b.pdf", Some("/tmp/s.css"));
    assert_ne!(a, b);
}

#[test]
fn exit_classification() {
    let ok = ProcessOutput { exit_code: Some(0), stdout: vec![], stderr: b"warn".to_vec() };
    assert!(ok.success());
    assert!(ok.check().is_ok());
    let killed = ProcessOutput { exit_code: None, stdout: vec![], stderr: vec![] };
    assert!(!killed.success());
    let bad = ProcessOutput { exit_code: Some(2), stdout: b"x".to_vec(), stderr: b"oops".to_vec() };
    match bad.check() {
        Err(ConvertError::Output(o)) => assert_eq!(o.stderr, b"oops".to_vec()),
        _ => panic!("expected a rejection"),
    }
}

#[test]
fn error_replies() {
    let bad = ProcessOutput { exit_code: Some(1), stdout: vec![], stderr: b"line 3: bad".to_vec() };
    let r = ConvertError::Output(bad).to_reply();
    assert_eq!(r.status, 400);
    assert_eq!(r.content, ContentKind::Plain);
    assert_eq!(r.body, b"line 3: bad".to_vec());
    let f = ConvertError::IO(Fault::Process).to_reply();
    assert_eq!(f.status, 500);
    assert_eq!(f.content, ContentKind::Unspecified);
    assert!(f.body.is_empty());
    let d = Reply::document(vec![37, 80, 68, 70]);
    assert_eq!(d.status, 200);
    assert_eq!(d.content, ContentKind::Pdf);
    assert_eq!(d.body, vec![37, 80, 68, 70]);
}

fn started_without_css() -> Stage {
    let (stage, action) = begin(&auth_ok(), &key(), fields("# Hi", None, None));
    match action {
        Action::CreateTemp { kind, contents } => {
            assert_eq!(kind, TempKind::Output);
            assert_eq!(kind.suffix(), ".pdf");
            assert_eq!(contents, "");
        }
        _ => panic!("expected the output file first"),
    }
    stage
}

fn running(stage: Stage) -> Stage {
    let (stage, action) = step(stage, Event::Created("/tmp/out1.pdf".to_string()));
    match action {
        Action::Run(inv) => {
            assert_eq!(inv.program, "pandoc");
            assert_eq!(inv.args, vec!["--output=/tmp/out1.pdf", "--pdf-engine=weasyprint"]);
            assert_eq!(inv.input, "# Hi");
        }
        _ => panic!("expected the converter to run"),
    }
    stage
}

#[test]
fn default_engine_success_scenario() {
    let stage = running(started_without_css());
    let (stage, action) = step(stage, exited(Some(0), ""));
    match action {
        Action::ReadArtifact(p) => assert_eq!(p, "/tmp/out1.pdf"),
        _ => panic!("expected the document to be read"),
    }
    let pdf = b"%PDF-1.7 binary\x00\xff".to_vec();
    let (stage, action) = step(stage, Event::Read(pdf.clone()));
    assert!(stage.is_finished());
    let (reply, release) = finish(action);
    assert_eq!(reply.status, 200);
    assert_eq!(reply.content, ContentKind::Pdf);
    assert_eq!(reply.body, pdf);
    assert_eq!(release, vec!["/tmp/out1.pdf"]);
}

#[test]
fn default_engine_rejection_scenario() {
    let stage = running(started_without_css());
    let (stage, action) = step(stage, exited(Some(2), "bad markup"));
    assert!(stage.is_finished());
    let (reply, release) = finish(action);
    assert_eq!(reply.status, 400);
    assert_eq!(reply.content, ContentKind::Plain);
    assert_eq!(reply.body, b"bad markup".to_vec());
    assert_eq!(release, vec!["/tmp/out1.pdf"]);
}

#[test]
fn stylesheet_scenario() {
    let (stage, action) =
        begin(&auth_ok(), &key(), fields("# Hi", Some("body{color:red}"), Some("weasyprint")));
    assert!(matches!(action, Action::CreateTemp { kind: TempKind::Output, .. }));
    let (stage, action) = step(stage, Event::Created("/tmp/o.pdf".to_string()));
    match action {
        Action::CreateTemp { kind, contents } => {
            assert_eq!(kind, TempKind::Stylesheet);
            assert_eq!(kind.suffix(), ".css");
            assert_eq!(contents, "body{color:red}");
        }
        _ => panic!("expected the stylesheet file"),
    }
    let (stage, action) = step(stage, Event::Created("/tmp/s.css".to_string()));
    match action {
        Action::Run(inv) => assert_eq!(
            inv.args,
            vec!["--output=/tmp/o.pdf", "--pdf-engine=weasyprint", "--css=/tmp/s.css"]
        ),
        _ => panic!("expected the converter to run"),
    }
    let (stage, action) = step(stage, exited(Some(1), "no"));
    assert!(stage.is_finished());
    let (reply, release) = finish(action);
    assert_eq!(reply.body, b"no".to_vec());
    assert_eq!(release, vec!["/tmp/o.pdf", "/tmp/s.css"]);
}

#[test]
fn faults_release_what_was_created() {
    let (stage, action) = step(started_without_css(), Event::Failed);
    assert!(stage.is_finished());
    let (reply, release) = finish(action);
    assert_eq!(reply.status, 500);
    assert!(reply.body.is_empty());
    assert!(release.is_empty());

    let stage = running(started_without_css());
    let (_, action) = step(stage, Event::Failed);
    let (reply, release) = finish(action);
    assert_eq!(reply.status, 500);
    assert_eq!(release, vec!["/tmp/out1.pdf"]);

    let stage = running(started_without_css());
    let (stage, _) = step(stage, exited(Some(0), ""));
    let (_, action) = step(stage, Event::Failed);
    let (reply, release) = finish(action);
    assert_eq!(reply.status, 500);
    assert_eq!(release, vec!["/tmp/out1.pdf"]);
}

#[test]
fn stylesheet_failure_releases_output() {
    let (stage, _) = begin(&auth_ok(), &key(), fields("x", Some("a{}"), None));
    let (stage, _) = step(stage, Event::Created("/tmp/o2.pdf".to_string()));
    let (stage, action) = step(stage, Event::Failed);
    assert!(stage.is_finished());
    let (reply, release) = finish(action);
    assert_eq!(reply.status, 500);
    assert_eq!(release, vec!["/tmp/o2.pdf"]);
}

#[test]
fn unexpected_event_is_a_fault() {
    let stage = running(started_without_css());
    let (stage, action) = step(stage, Event::Read(vec![1, 2]));
    assert!(stage.is_finished());
    let (reply, release) = finish(action);
    assert_eq!(reply.status, 500);
    assert_eq!(release, vec!["/tmp/out1.pdf"]);
}

#[test]
fn signal_ended_converter_is_a_rejection() {
    let stage = running(started_without_css());
    let (_, action) = step(stage, exited(None, "killed"));
    let (reply, _) = finish(action);
    assert_eq!(reply.status, 400);
    assert_eq!(reply.body, b"killed".to_vec());
}
