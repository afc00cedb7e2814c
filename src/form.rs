//! Decoding the submitted form into a typed conversion request.
use vstd::prelude::*;
use crate::engine::{PdfEngine, engine_of};

verus! {

/// The fields of a submitted form, as the server found them.
pub struct FormFields {
    pub markdown: Option<String>,
    pub css: Option<String>,
    pub engine: Option<String>,
}

/// A decoded conversion request. An absent engine stays absent here: the
/// default is applied only when the converter invocation is planned.
pub struct ConvertForm {
    pub markdown: String,
    pub css: Option<String>,
    pub engine: Option<PdfEngine>,
}

/// Why a submission could not be decoded.
#[derive(Clone, Copy, Debug, PartialEq, Eq, Structural)]
pub enum DecodeError {
    /// The body was not a well-formed form.
    Malformed,
    /// The required source text was not submitted.
    MissingMarkdown,
    /// The engine field names no known engine.
    UnknownEngine,
}

/// What decoding a submission gives: `Ok` carries the engine chosen, if any;
/// the texts pass through unchanged.
pub open spec fn decode_outcome(fields: Option<FormFields>) -> Result<Option<PdfEngine>, DecodeError> {
    match fields {
        None => Err(DecodeError::Malformed),
        Some(f) => if f.markdown is None {
            Err(DecodeError::MissingMarkdown)
        } else {
            match f.engine {
                None => Ok(None),
                Some(e) => match engine_of(e@) {
                    Some(k) => Ok(Some(k)),
                    None => Err(DecodeError::UnknownEngine),
                },
            }
        },
    }
}

/// The texts of a decoded request are those submitted.
pub open spec fn carries_texts(form: ConvertForm, f: FormFields) -> bool {
    &&& f.markdown is Some
    &&& form.markdown@ == f.markdown->Some_0@
    &&& form.css is Some <==> f.css is Some
    &&& form.css is Some ==> form.css->Some_0@ == f.css->Some_0@
}

/// Decodes a submission; `None` stands for a body that was not a well-formed form.
pub fn decode(fields: Option<FormFields>) -> (r: Result<ConvertForm, DecodeError>)
    ensures
        r is Ok <==> decode_outcome(fields) is Ok,
        r is Err ==> decode_outcome(fields) == Err::<Option<PdfEngine>, DecodeError>(r->Err_0),
        r is Ok ==> decode_outcome(fields) == Ok::<Option<PdfEngine>, DecodeError>(r->Ok_0.engine),
        r is Ok ==> carries_texts(r->Ok_0, fields->Some_0),
{
    match fields {
        None => Err(DecodeError::Malformed),
        Some(f) => {
            let FormFields { markdown, css, engine } = f;
            match markdown {
                None => Err(DecodeError::MissingMarkdown),
                Some(markdown) => {
                    let engine = match engine {
                        None => None,
                        Some(e) => match PdfEngine::from_field(e.as_str()) {
                            Some(k) => Some(k),
                            None => {
                                return Err(DecodeError::UnknownEngine);
                            },
                        },
                    };
                    Ok(ConvertForm { markdown, css, engine })
                },
            }
        },
    }
}

impl ConvertForm {
    /// The engine to run: the one chosen, else the default.
    pub fn resolved_engine(&self) -> (r: PdfEngine)
        ensures
            r == resolve(self.engine),
    {
        match self.engine {
            Some(e) => e,
            None => PdfEngine::default_choice(),
        }
    }
}

/// The engine to run for a request's choice.
pub open spec fn resolve(choice: Option<PdfEngine>) -> PdfEngine {
    match choice {
        Some(e) => e,
        None => crate::engine::default_engine(),
    }
}

} // verus!
