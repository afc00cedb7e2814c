//! The decisions of one conversion request, as a state machine. The server
//! performs each action it is handed and reports the result back as an event;
//! the machine answers with the next action, until it hands out the reply
//! together with the temporary files to release.
use vstd::prelude::*;
use crate::auth::{ApiKey, authorized, opt_text, texts};
use crate::command::{
    ContentKind, ConvertError, Fault, Invocation, ProcessOutput, Reply, STATUS_BAD_REQUEST,
    STATUS_UNAUTHORIZED, plan, plans, reply_is, succeeded, STATUS_OK, STATUS_INTERNAL_ERROR,
};
use crate::form::{ConvertForm, FormFields, carries_texts, decode, decode_outcome, resolve};

verus! {

/// What a temporary file is for.
#[derive(Clone, Copy, Debug, PartialEq, Eq, Structural)]
pub enum TempKind {
    /// The converter's output document.
    Output,
    /// The submitted stylesheet.
    Stylesheet,
}

/// The file name suffix of a temporary file of each kind.
pub open spec fn suffix_of(k: TempKind) -> Seq<char> {
    match k {
        TempKind::Output => seq!['.', 'p', 'd', 'f'],
        TempKind::Stylesheet => seq!['.', 'c', 's', 's'],
    }
}

impl TempKind {
    /// The file name suffix.
    pub fn suffix(&self) -> (r: &'static str)
        ensures
            r@ == suffix_of(*self),
    {
        match *self {
            TempKind::Output => {
                let s = ".pdf";
                proof {
                    reveal_strlit(".pdf");
                }
                assert(s@ =~= suffix_of(*self));
                s
            },
            TempKind::Stylesheet => {
                let s = ".css";
                proof {
                    reveal_strlit(".css");
                }
                assert(s@ =~= suffix_of(*self));
                s
            },
        }
    }
}

/// Where a request stands.
pub enum Stage {
    /// Waiting for the output file to be created.
    CreatingOutput { form: ConvertForm },
    /// Waiting for the stylesheet file to be created and written.
    CreatingStylesheet { form: ConvertForm, output: String },
    /// Waiting for the converter to exit.
    Converting { output: String, stylesheet: Option<String> },
    /// Waiting for the produced document to be read back.
    ReadingArtifact { output: String, stylesheet: Option<String> },
    /// The reply was handed out.
    Finished,
}

/// What the server reports after performing an action.
pub enum Event {
    /// A temporary file was created (and its contents written) at this path.
    Created(String),
    /// The converter ran and exited.
    Exited(ProcessOutput),
    /// The produced document was read back in full.
    Read(Vec<u8>),
    /// The action failed: a file could not be created or read, or the
    /// converter could not be started, fed or awaited.
    Failed,
}

/// What the server is to do next.
pub enum Action {
    /// Create a uniquely named temporary file of this kind holding these contents.
    CreateTemp { kind: TempKind, contents: String },
    /// Run the converter and wait for it, capturing both output streams.
    Run(Invocation),
    /// Read the document at this path in full.
    ReadArtifact(String),
    /// Answer the caller, then delete these temporary files.
    Finish { reply: Reply, release: Vec<String> },
}

/// The temporary files a request holds at a stage, in order of creation.
pub open spec fn held(s: Stage) -> Seq<Seq<char>> {
    match s {
        Stage::CreatingOutput { .. } => Seq::empty(),
        Stage::CreatingStylesheet { output, .. } => seq![output@],
        Stage::Converting { output, stylesheet } => files(output, stylesheet),
        Stage::ReadingArtifact { output, stylesheet } => files(output, stylesheet),
        Stage::Finished => Seq::empty(),
    }
}

/// The output file, then the stylesheet file if any.
pub open spec fn files(output: String, stylesheet: Option<String>) -> Seq<Seq<char>> {
    match stylesheet {
        Some(c) => seq![output@, c@],
        None => seq![output@],
    }
}

/// The temporary file an event reports as created, if any.
pub open spec fn created(e: Event) -> Seq<Seq<char>> {
    match e {
        Event::Created(p) => seq![p@],
        _ => Seq::empty(),
    }
}

/// The action answers the caller with this reply and releases these files.
pub open spec fn finishes(
    a: Action,
    status: u16,
    content: ContentKind,
    body: Seq<u8>,
    release: Seq<Seq<char>>,
) -> bool {
    &&& a is Finish
    &&& reply_is(a->reply, status, content, body)
    &&& texts(a->release@) == release
}

/// The action answers the caller with a bare server error and releases these files.
pub open spec fn faults(a: Action, release: Seq<Seq<char>>) -> bool {
    finishes(a, STATUS_INTERNAL_ERROR, ContentKind::Unspecified, Seq::empty(), release)
}

/// The action runs the converter on the request with these files.
pub open spec fn runs(a: Action, form: ConvertForm, output: Seq<char>, css: Option<Seq<char>>) -> bool {
    &&& a is Run
    &&& plans(a->Run_0, form.markdown@, resolve(form.engine), output, css)
}

/// The next stage and action for each stage and event.
pub open spec fn transition(s: Stage, e: Event, next: Stage, a: Action) -> bool {
    match s {
        Stage::CreatingOutput { form } => match e {
            Event::Created(p) => match form.css {
                Some(c) => {
                    &&& next == (Stage::CreatingStylesheet { form, output: p })
                    &&& a is CreateTemp
                    &&& a->kind == TempKind::Stylesheet
                    &&& a->contents@ == c@
                },
                None => {
                    &&& next == (Stage::Converting { output: p, stylesheet: None })
                    &&& runs(a, form, p@, None)
                },
            },
            _ => next is Finished && faults(a, Seq::empty()),
        },
        Stage::CreatingStylesheet { form, output } => match e {
            Event::Created(c) => {
                &&& next == (Stage::Converting { output, stylesheet: Some(c) })
                &&& runs(a, form, output@, Some(c@))
            },
            _ => next is Finished && faults(a, seq![output@]),
        },
        Stage::Converting { output, stylesheet } => match e {
            Event::Exited(o) => if succeeded(o) {
                &&& next == (Stage::ReadingArtifact { output, stylesheet })
                &&& a is ReadArtifact
                &&& a->ReadArtifact_0@ == output@
            } else {
                next is Finished && finishes(
                    a,
                    STATUS_BAD_REQUEST,
                    ContentKind::Plain,
                    o.stderr@,
                    files(output, stylesheet),
                )
            },
            _ => next is Finished && faults(a, files(output, stylesheet)),
        },
        Stage::ReadingArtifact { output, stylesheet } => match e {
            Event::Read(b) => next is Finished && finishes(a, STATUS_OK, ContentKind::Pdf, b@, files(output, stylesheet)),
            _ => next is Finished && faults(a, files(output, stylesheet)),
        },
        Stage::Finished => false,
    }
}

/// The converter is started only once the output file exists: an action that
/// runs it follows the report of a created file, while waiting for the output
/// file or for the stylesheet file. Since `begin` answers a request that fails
/// the credential check or the decoding at once, in the finished stage, no such
/// request ever starts the converter.
pub proof fn lemma_run_follows_created_file(s: Stage, e: Event, next: Stage, a: Action)
    requires
        transition(s, e, next, a),
        a is Run,
    ensures
        s is CreatingOutput || s is CreatingStylesheet,
        e is Created,
        held(next).len() >= 1,
{
}

/// Each file created is held until the reply: a stage's files come first in
/// the next stage's files, unless the action is the reply, which releases them all.
pub proof fn lemma_created_files_held(s: Stage, e: Event, next: Stage, a: Action)
    requires
        transition(s, e, next, a),
    ensures
        a is Finish ==> next is Finished,
        !(a is Finish) ==> held(next) == held(s) + created(e),
        a is Finish ==> texts(a->release@) == held(s),
{
}

fn release_list(output: String, stylesheet: Option<String>) -> (r: Vec<String>)
    ensures
        texts(r@) == files(output, stylesheet),
{
    let mut r: Vec<String> = Vec::new();
    r.push(output);
    match stylesheet {
        Some(c) => r.push(c),
        None => {},
    }
    assert(texts(r@) =~= files(output, stylesheet));
    r
}

/// The fault behind an event that does not let a request go on: the failure of
/// the pending action, or an event that does not answer it.
fn fault_of(event: &Event, pending: Fault) -> (r: Fault)
    ensures
        r == (if *event is Failed { pending } else { Fault::Unexpected }),
{
    match event {
        Event::Failed => pending,
        _ => Fault::Unexpected,
    }
}

fn fault_action(cause: Fault, release: Vec<String>) -> (a: Action)
    ensures
        faults(a, texts(release@)),
{
    Action::Finish { reply: ConvertError::IO(cause).to_reply(), release }
}

fn run_action(form: &ConvertForm, output: &String, css: Option<&String>) -> (a: Action)
    ensures
        runs(a, *form, output@, match css {
            Some(c) => Some(c@),
            None => None,
        }),
{
    let engine = form.resolved_engine();
    let inv = match css {
        Some(c) => plan(&form.markdown, engine, output.as_str(), Some(c.as_str())),
        None => plan(&form.markdown, engine, output.as_str(), None),
    };
    Action::Run(inv)
}

/// Starts a request: checks its `Authorization` values against the configured
/// credential, then decodes its form (`None`: a body that was no well-formed form).
/// An unauthorized request is answered at once, and so is one that does not
/// decode; neither ever reaches a temporary file or the converter.
pub fn begin(values: &Vec<String>, configured: &Option<String>, fields: Option<FormFields>) -> (r: (
    Stage,
    Action,
))
    ensures
        !authorized(texts(values@), opt_text(*configured)) ==> {
            &&& r.0 is Finished
            &&& finishes(r.1, STATUS_UNAUTHORIZED, ContentKind::Unspecified, Seq::empty(), Seq::empty())
        },
        authorized(texts(values@), opt_text(*configured)) && decode_outcome(fields) is Err ==> {
            &&& r.0 is Finished
            &&& finishes(r.1, STATUS_BAD_REQUEST, ContentKind::Unspecified, Seq::empty(), Seq::empty())
        },
        authorized(texts(values@), opt_text(*configured)) && decode_outcome(fields) is Ok ==> {
            &&& r.0 is CreatingOutput
            &&& carries_texts(r.0->CreatingOutput_form, fields->Some_0)
            &&& decode_outcome(fields) == Ok::<_, crate::form::DecodeError>(r.0->CreatingOutput_form.engine)
            &&& r.1 is CreateTemp
            &&& r.1->kind == TempKind::Output
            &&& r.1->contents@ == Seq::<char>::empty()
        },
{
    match ApiKey::from_headers(values, configured) {
        Err(_) => {
            let reply = Reply::bare(STATUS_UNAUTHORIZED);
            let release: Vec<String> = Vec::new();
            assert(texts(release@) =~= Seq::empty());
            (Stage::Finished, Action::Finish { reply, release })
        },
        Ok(_) => match decode(fields) {
            Err(_) => {
                let reply = Reply::bare(STATUS_BAD_REQUEST);
                let release: Vec<String> = Vec::new();
                assert(texts(release@) =~= Seq::empty());
                (Stage::Finished, Action::Finish { reply, release })
            },
            Ok(form) => (
                Stage::CreatingOutput { form },
                Action::CreateTemp { kind: TempKind::Output, contents: String::new() },
            ),
        },
    }
}

impl Stage {
    /// Whether the reply was handed out.
    pub fn is_finished(&self) -> (r: bool)
        ensures
            r == (*self is Finished),
    {
        match self {
            Stage::Finished => true,
            _ => false,
        }
    }
}

/// Takes the result of the pending action and decides the next one. Every
/// reply releases exactly the temporary files created so far; until then each
/// file created is held.
pub fn step(stage: Stage, event: Event) -> (r: (Stage, Action))
    requires
        !(stage is Finished),
    ensures
        transition(stage, event, r.0, r.1),
        r.1 is Finish <==> r.0 is Finished,
        r.1 is Finish ==> texts(r.1->release@) == held(stage),
        !(r.1 is Finish) ==> held(r.0) == held(stage) + created(event),
{
    match stage {
        Stage::CreatingOutput { form } => match event {
            Event::Created(p) => {
                let has_css = form.css.is_some();
                if has_css {
                    let contents = form.css.as_ref().unwrap().clone();
                    let next = Stage::CreatingStylesheet { form, output: p };
                    assert(held(next) =~= Seq::<Seq<char>>::empty() + created(event));
                    (next, Action::CreateTemp { kind: TempKind::Stylesheet, contents })
                } else {
                    let a = run_action(&form, &p, None);
                    let next = Stage::Converting { output: p, stylesheet: None };
                    assert(held(next) =~= Seq::<Seq<char>>::empty() + created(event));
                    (next, a)
                }
            },
            _ => {
                let release: Vec<String> = Vec::new();
                assert(texts(release@) =~= Seq::empty());
                (Stage::Finished, fault_action(fault_of(&event, Fault::TempFile), release))
            },
        },
        Stage::CreatingStylesheet { form, output } => match event {
            Event::Created(c) => {
                let a = run_action(&form, &output, Some(&c));
                let next = Stage::Converting { output, stylesheet: Some(c) };
                assert(held(next) =~= seq![output@] + created(event));
                (next, a)
            },
            _ => (
                Stage::Finished,
                fault_action(fault_of(&event, Fault::TempFile), release_list(output, None)),
            ),
        },
        Stage::Converting { output, stylesheet } => match event {
            Event::Exited(o) => {
                if o.success() {
                    let a = Action::ReadArtifact(output.clone());
                    let next = Stage::ReadingArtifact { output, stylesheet };
                    assert(held(next) =~= held(stage) + created(event));
                    (next, a)
                } else {
                    let reply = ConvertError::Output(o).to_reply();
                    (Stage::Finished, Action::Finish { reply, release: release_list(output, stylesheet) })
                }
            },
            _ => (
                Stage::Finished,
                fault_action(fault_of(&event, Fault::Process), release_list(output, stylesheet)),
            ),
        },
        Stage::ReadingArtifact { output, stylesheet } => match event {
            Event::Read(b) => {
                let reply = Reply::document(b);
                (Stage::Finished, Action::Finish { reply, release: release_list(output, stylesheet) })
            },
            _ => (
                Stage::Finished,
                fault_action(fault_of(&event, Fault::Artifact), release_list(output, stylesheet)),
            ),
        },
        Stage::Finished => {
            proof {
                assert(false);
            }
            (Stage::Finished, fault_action(Fault::Unexpected, Vec::new()))
        },
    }
}

} // verus!
