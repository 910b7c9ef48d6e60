//! OCR of scanned PDF pages: the error kinds and the reading of Tesseract
//! runs. Rendering (PDFium) and running Tesseract are the application's.
use vstd::prelude::*;
use crate::text::{concat2, owned, trim_seq, trim_str};

verus! {

/// Why OCR failed.
#[derive(Debug, Clone)]
pub enum OcrError {
    /// A required tool (PDFium / Tesseract) is not installed.
    ToolMissing(String),
    /// PDFium binding or page rendering failed.
    Render(String),
    /// Tesseract failed.
    OcrFailed(String),
}

/// The display text of an OCR error.
pub open spec fn ocr_error_text(e: OcrError) -> Seq<char> {
    match e {
        OcrError::ToolMissing(m) => m@,
        OcrError::Render(m) => "render failed: "@ + m@,
        OcrError::OcrFailed(m) => "ocr failed: "@ + m@,
    }
}

impl OcrError {
    /// The display text: the message of a missing tool, else the failing
    /// step and its message.
    pub fn to_string(&self) -> (s: String)
        ensures
            s@ == ocr_error_text(*self),
    {
        match self {
            OcrError::ToolMissing(m) => m.clone(),
            OcrError::Render(m) => concat2("render failed: ", m.as_str()),
            OcrError::OcrFailed(m) => concat2("ocr failed: ", m.as_str()),
        }
    }
}

/// The language sets tried in turn: Chinese first with English, then English.
pub fn ocr_languages() -> (r: Vec<&'static str>)
    ensures
        r@.len() == 2,
        r@[0]@ == "chi_sim+eng"@,
        r@[1]@ == "eng"@,
{
    let mut v: Vec<&'static str> = Vec::new();
    v.push("chi_sim+eng");
    v.push("eng");
    v
}

/// One Tesseract run: whether it succeeded, and its output and error text.
#[derive(Debug, Clone)]
pub struct TesseractRun {
    pub success: bool,
    pub stdout: String,
    pub stderr: String,
}

/// The OCR result of the runs made in turn: the trimmed output of the first
/// that succeeded; else the trimmed error text of the last run, or
/// `tesseract failed` when none ran.
pub open spec fn ocr_result(runs: Seq<TesseractRun>) -> Result<Seq<char>, Seq<char>>
    decreases runs.len(),
{
    if runs.len() == 0 {
        Err("tesseract failed"@)
    } else if runs[0].success {
        Ok(trim_seq(runs[0].stdout@))
    } else if runs.len() == 1 {
        Err(trim_seq(runs[0].stderr@))
    } else {
        ocr_result(runs.drop_first())
    }
}

proof fn lemma_ocr_skip(runs: Seq<TesseractRun>, k: int)
    requires
        0 <= k < runs.len(),
        forall|j: int| 0 <= j < k ==> !(#[trigger] runs[j]).success,
    ensures
        ocr_result(runs) == ocr_result(runs.skip(k)),
    decreases k,
{
    if k > 0 {
        assert(!runs[0].success);
        lemma_ocr_skip(runs.drop_first(), k - 1);
        assert(runs.drop_first().skip(k - 1) =~= runs.skip(k));
    } else {
        assert(runs.skip(0) =~= runs);
    }
}

proof fn lemma_ocr_all_fail(runs: Seq<TesseractRun>)
    requires
        runs.len() > 0,
        forall|j: int| 0 <= j < runs.len() ==> !(#[trigger] runs[j]).success,
    ensures
        ocr_result(runs) == Err::<Seq<char>, Seq<char>>(trim_seq(runs.last().stderr@)),
    decreases runs.len(),
{
    assert(!runs[0].success);
    if runs.len() > 1 {
        lemma_ocr_all_fail(runs.drop_first());
    }
}

/// Reads the Tesseract runs (see [`ocr_result`]); a failure is
/// [`OcrError::OcrFailed`].
pub fn ocr_outcome(runs: &[TesseractRun]) -> (r: Result<String, OcrError>)
    ensures
        match ocr_result(runs@) {
            Ok(text) => r matches Ok(s) && s@ == text,
            Err(m) => r matches Err(OcrError::OcrFailed(e)) && e@ == m,
        },
{
    let mut last_error: Option<String> = None;
    let mut k: usize = 0;
    while k < runs.len()
        invariant
            k <= runs@.len(),
            forall|j: int| 0 <= j < k ==> !(#[trigger] runs@[j]).success,
            k > 0 ==> (last_error matches Some(e) && e@ == trim_seq(runs@[k as int - 1].stderr@)),
            k == 0 ==> last_error is None,
        decreases runs.len() - k,
    {
        if runs[k].success {
            proof {
                lemma_ocr_skip(runs@, k as int);
                assert(runs@.skip(k as int)[0] == runs@[k as int]);
            }
            return Ok(trim_str(runs[k].stdout.as_str()));
        }
        last_error = Some(trim_str(runs[k].stderr.as_str()));
        k = k + 1;
    }
    proof {
        if runs@.len() > 0 {
            lemma_ocr_all_fail(runs@);
        }
    }
    match last_error {
        Some(e) => Err(OcrError::OcrFailed(e)),
        None => Err(OcrError::OcrFailed(owned("tesseract failed"))),
    }
}

} // verus!
