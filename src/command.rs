//! The converter invocation: its program and arguments, how its exit is
//! classified, and what the caller is answered.
use vstd::prelude::*;
use vstd::string::StringExecFns;
use crate::auth::texts;
use crate::engine::{PdfEngine, engine_name};

verus! {

/// The converter program.
pub open spec fn converter_program() -> Seq<char> {
    seq!['p', 'a', 'n', 'd', 'o', 'c']
}

/// The flag that binds the output destination.
pub open spec fn output_flag() -> Seq<char> {
    seq!['-', '-', 'o', 'u', 't', 'p', 'u', 't', '=']
}

/// The flag that binds the engine.
pub open spec fn engine_flag() -> Seq<char> {
    seq!['-', '-', 'p', 'd', 'f', '-', 'e', 'n', 'g', 'i', 'n', 'e', '=']
}

/// The flag that binds the stylesheet.
pub open spec fn css_flag() -> Seq<char> {
    seq!['-', '-', 'c', 's', 's', '=']
}

/// The converter's arguments: the output path, the engine, and the
/// stylesheet path when there is one.
pub open spec fn converter_args(engine: PdfEngine, output: Seq<char>, css: Option<Seq<char>>) -> Seq<
    Seq<char>,
> {
    let base = seq![output_flag() + output, engine_flag() + engine_name(engine)];
    match css {
        Some(p) => base.push(css_flag() + p),
        None => base,
    }
}

/// Two requests whose output files differ never hand the converter the same
/// arguments, whatever else they share: the output path is the first argument
/// and is recovered from it.
pub proof fn lemma_distinct_outputs_distinct_args(
    engine: PdfEngine,
    out1: Seq<char>,
    out2: Seq<char>,
    css1: Option<Seq<char>>,
    css2: Option<Seq<char>>,
)
    requires
        out1 != out2,
    ensures
        converter_args(engine, out1, css1) != converter_args(engine, out2, css2),
{
    let a1 = converter_args(engine, out1, css1);
    let a2 = converter_args(engine, out2, css2);
    let n: int = output_flag().len() as int;
    assert((output_flag() + out1).subrange(n, n + out1.len()) =~= out1);
    assert((output_flag() + out2).subrange(n, n + out2.len()) =~= out2);
    if a1 == a2 {
        assert(a1[0] == output_flag() + out1);
        assert(a2[0] == output_flag() + out2);
        assert(out1.len() == out2.len());
    }
}

/// A planned run of the converter: program, arguments, and the text fed to its input.
pub struct Invocation {
    pub program: String,
    pub args: Vec<String>,
    pub input: String,
}

/// The invocation runs the converter with the given source, engine and paths.
pub open spec fn plans(
    inv: Invocation,
    source: Seq<char>,
    engine: PdfEngine,
    output: Seq<char>,
    css: Option<Seq<char>>,
) -> bool {
    &&& inv.program@ == converter_program()
    &&& texts(inv.args@) == converter_args(engine, output, css)
    &&& inv.input@ == source
}

fn flagged(flag: &str, value: &str) -> (r: String)
    ensures
        r@ == flag@ + value@,
{
    String::from_str(flag).concat(value)
}

/// Builds the converter's arguments.
pub fn build_args(engine: PdfEngine, output: &str, css: Option<&str>) -> (r: Vec<String>)
    ensures
        texts(r@) == converter_args(engine, output@, match css {
            Some(p) => Some(p@),
            None => None,
        }),
{
    proof {
        reveal_strlit("--output=");
        reveal_strlit("--pdf-engine=");
        reveal_strlit("--css=");
    }
    let mut args: Vec<String> = Vec::new();
    let o = flagged("--output=", output);
    assert(o@ =~= output_flag() + output@);
    args.push(o);
    let e = flagged("--pdf-engine=", engine.name());
    assert(e@ =~= engine_flag() + engine_name(engine));
    args.push(e);
    match css {
        Some(p) => {
            let c = flagged("--css=", p);
            assert(c@ =~= css_flag() + p@);
            args.push(c);
        },
        None => {},
    }
    assert(texts(args@) =~= converter_args(engine, output@, match css {
        Some(p) => Some(p@),
        None => None,
    }));
    args
}

/// Plans a run of the converter on `source`.
pub fn plan(source: &String, engine: PdfEngine, output: &str, css: Option<&str>) -> (r: Invocation)
    ensures
        plans(r, source@, engine, output@, match css {
            Some(p) => Some(p@),
            None => None,
        }),
{
    let program = String::from_str("pandoc");
    proof {
        reveal_strlit("pandoc");
    }
    assert(program@ =~= converter_program());
    Invocation { program, args: build_args(engine, output, css), input: source.clone() }
}

/// What a finished converter process left: its exit code (none when a signal
/// ended it) and both captured streams.
pub struct ProcessOutput {
    pub exit_code: Option<i32>,
    pub stdout: Vec<u8>,
    pub stderr: Vec<u8>,
}

/// A run succeeded exactly when the process exited with code zero.
pub open spec fn succeeded(o: ProcessOutput) -> bool {
    o.exit_code == Some(0i32)
}

/// Where an infrastructure fault happened.
#[derive(Clone, Copy, Debug, PartialEq, Eq, Structural)]
pub enum Fault {
    /// A temporary file could not be created or written.
    TempFile,
    /// The converter could not be started, fed or awaited.
    Process,
    /// The promised output could not be read back.
    Artifact,
    /// A step answered something other than what was asked.
    Unexpected,
}

/// Why a conversion produced no document.
pub enum ConvertError {
    /// The converter rejected its input; its output is kept.
    Output(ProcessOutput),
    /// An infrastructure fault.
    IO(Fault),
}

impl ProcessOutput {
    /// Whether the run succeeded.
    pub fn success(&self) -> (r: bool)
        ensures
            r == succeeded(*self),
    {
        match self.exit_code {
            Some(c) => c == 0,
            None => false,
        }
    }

    /// Passes a successful run; a failed one becomes an error that keeps its output.
    pub fn check(self) -> (r: Result<(), ConvertError>)
        ensures
            r is Ok <==> succeeded(self),
            r is Err ==> r->Err_0 == ConvertError::Output(self),
    {
        if self.success() {
            Ok(())
        } else {
            Err(ConvertError::Output(self))
        }
    }
}

/// The content type of a reply's body.
#[derive(Clone, Copy, Debug, PartialEq, Eq, Structural)]
pub enum ContentKind {
    /// No body of the library's own; the server answers its default.
    Unspecified,
    /// A produced document.
    Pdf,
    /// Plain diagnostic text.
    Plain,
}

pub const STATUS_OK: u16 = 200;
pub const STATUS_BAD_REQUEST: u16 = 400;
pub const STATUS_UNAUTHORIZED: u16 = 401;
pub const STATUS_INTERNAL_ERROR: u16 = 500;

/// An answer to the caller.
pub struct Reply {
    pub status: u16,
    pub content: ContentKind,
    pub body: Vec<u8>,
}

/// The reply has this status, content type and body.
pub open spec fn reply_is(r: Reply, status: u16, content: ContentKind, body: Seq<u8>) -> bool {
    r.status == status && r.content == content && r.body@ == body
}

/// The reply to a failed conversion: the converter's error stream, verbatim,
/// for a rejection; nothing of the cause for a fault.
pub open spec fn error_reply(e: ConvertError, r: Reply) -> bool {
    match e {
        ConvertError::Output(o) => reply_is(r, STATUS_BAD_REQUEST, ContentKind::Plain, o.stderr@),
        ConvertError::IO(_) => reply_is(
            r,
            STATUS_INTERNAL_ERROR,
            ContentKind::Unspecified,
            Seq::empty(),
        ),
    }
}

impl Reply {
    /// A reply with no body of its own.
    pub fn bare(status: u16) -> (r: Reply)
        ensures
            reply_is(r, status, ContentKind::Unspecified, Seq::empty()),
    {
        Reply { status, content: ContentKind::Unspecified, body: Vec::new() }
    }

    /// A produced document.
    pub fn document(body: Vec<u8>) -> (r: Reply)
        ensures
            reply_is(r, STATUS_OK, ContentKind::Pdf, body@),
    {
        Reply { status: STATUS_OK, content: ContentKind::Pdf, body }
    }
}

impl ConvertError {
    /// The reply to this error.
    pub fn to_reply(self) -> (r: Reply)
        ensures
            error_reply(self, r),
    {
        match self {
            ConvertError::Output(o) => Reply {
                status: STATUS_BAD_REQUEST,
                content: ContentKind::Plain,
                body: o.stderr,
            },
            ConvertError::IO(_) => Reply::bare(STATUS_INTERNAL_ERROR),
        }
    }
}

} // verus!
