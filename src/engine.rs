//! The rendering engines the converter can delegate to, and how a submitted
//! field value selects one.
use vstd::prelude::*;
use vstd::string::StrSliceExecFns;

verus! {

/// One of the fixed set of rendering backends.
#[derive(Clone, Copy, Debug, PartialEq, Eq, Structural)]
pub enum PdfEngine {
    Weasyprint,
    Wkhtmltopdf,
    Pdflatex,
}

/// The identifier of an engine, as handed to the converter.
pub open spec fn engine_name(e: PdfEngine) -> Seq<char> {
    match e {
        PdfEngine::Weasyprint => seq!['w', 'e', 'a', 's', 'y', 'p', 'r', 'i', 'n', 't'],
        PdfEngine::Wkhtmltopdf => seq!['w', 'k', 'h', 't', 'm', 'l', 't', 'o', 'p', 'd', 'f'],
        PdfEngine::Pdflatex => seq!['p', 'd', 'f', 'l', 'a', 't', 'e', 'x'],
    }
}

/// A character with ASCII upper case letters mapped to lower case, as a code point.
pub open spec fn ascii_fold(c: char) -> u32 {
    if 'A' <= c && c <= 'Z' {
        (c as u32 + 32) as u32
    } else {
        c as u32
    }
}

/// Two texts that are equal up to ASCII case.
pub open spec fn uncased_eq(a: Seq<char>, b: Seq<char>) -> bool {
    &&& a.len() == b.len()
    &&& forall|i: int| 0 <= i < a.len() ==> #[trigger] ascii_fold(a[i]) == ascii_fold(b[i])
}

/// The engine a field value selects: its identifier, in any ASCII case.
pub open spec fn engine_of(s: Seq<char>) -> Option<PdfEngine> {
    if uncased_eq(s, engine_name(PdfEngine::Weasyprint)) {
        Some(PdfEngine::Weasyprint)
    } else if uncased_eq(s, engine_name(PdfEngine::Wkhtmltopdf)) {
        Some(PdfEngine::Wkhtmltopdf)
    } else if uncased_eq(s, engine_name(PdfEngine::Pdflatex)) {
        Some(PdfEngine::Pdflatex)
    } else {
        None
    }
}

/// The engine used when a request names none.
pub open spec fn default_engine() -> PdfEngine {
    PdfEngine::Weasyprint
}

fn fold_char(c: char) -> (r: u32)
    ensures
        r == ascii_fold(c),
{
    if 'A' <= c && c <= 'Z' {
        c as u32 + 32
    } else {
        c as u32
    }
}

/// Compares two texts up to ASCII case.
pub fn eq_uncased(a: &str, b: &str) -> (r: bool)
    ensures
        r == uncased_eq(a@, b@),
{
    let n = a.unicode_len();
    if n != b.unicode_len() {
        return false;
    }
    let mut i: usize = 0;
    while i < n
        invariant
            n == a@.len(),
            n == b@.len(),
            i <= n,
            forall|j: int| 0 <= j < i ==> #[trigger] ascii_fold(a@[j]) == ascii_fold(b@[j]),
        decreases n - i,
    {
        if fold_char(a.get_char(i)) != fold_char(b.get_char(i)) {
            return false;
        }
        i = i + 1;
    }
    true
}

impl PdfEngine {
    /// The identifier handed to the converter.
    pub fn name(&self) -> (r: &'static str)
        ensures
            r@ == engine_name(*self),
    {
        match *self {
            PdfEngine::Weasyprint => {
                let s = "weasyprint";
                proof {
                    reveal_strlit("weasyprint");
                }
                assert(s@ =~= engine_name(*self));
                s
            },
            PdfEngine::Wkhtmltopdf => {
                let s = "wkhtmltopdf";
                proof {
                    reveal_strlit("wkhtmltopdf");
                }
                assert(s@ =~= engine_name(*self));
                s
            },
            PdfEngine::Pdflatex => {
                let s = "pdflatex";
                proof {
                    reveal_strlit("pdflatex");
                }
                assert(s@ =~= engine_name(*self));
                s
            },
        }
    }

    /// The identifier as an owned text.
    pub fn to_text(&self) -> (r: String)
        ensures
            r@ == engine_name(*self),
    {
        String::from_str(self.name())
    }

    /// Selects the engine a submitted field value names, in any ASCII case;
    /// `None` for a value that names no engine.
    pub fn from_field(s: &str) -> (r: Option<PdfEngine>)
        ensures
            r == engine_of(s@),
    {
        if eq_uncased(s, PdfEngine::Weasyprint.name()) {
            Some(PdfEngine::Weasyprint)
        } else if eq_uncased(s, PdfEngine::Wkhtmltopdf.name()) {
            Some(PdfEngine::Wkhtmltopdf)
        } else if eq_uncased(s, PdfEngine::Pdflatex.name()) {
            Some(PdfEngine::Pdflatex)
        } else {
            None
        }
    }

    /// The engine used when a request names none.
    pub fn default_choice() -> (r: PdfEngine)
        ensures
            r == default_engine(),
    {
        PdfEngine::Weasyprint
    }
}

} // verus!
