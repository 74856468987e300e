//! The transcriber's own part: where its model lives, which language
//! it is held to, and how the recogniser's segments become one result.

use vstd::prelude::*;
use vstd::string::*;

verus! {

/// A recogniser bound to one model file, optionally held to one
/// language. The model is loaded afresh for each transcription and
/// released after it.
#[derive(Debug)]
pub struct Transcriber {
    pub model_path: String,
    pub language: Option<String>,
}

/// Why a transcriber could not be set up.
#[derive(Debug)]
pub enum TranscriberError {
    /// No model file at this path.
    ModelNotFound { path: String },
}

/// Whether `c` has the Unicode `White_Space` property.
pub open spec fn is_white_space(c: char) -> bool {
    ('\u{9}' <= c && c <= '\u{d}') || c == ' ' || c == '\u{85}' || c == '\u{a0}' || c == '\u{1680}'
        || ('\u{2000}' <= c && c <= '\u{200a}') || c == '\u{2028}' || c == '\u{2029}' || c
        == '\u{202f}' || c == '\u{205f}' || c == '\u{3000}'
}

/// `s` without its leading white space.
pub open spec fn trim_start(s: Seq<char>) -> Seq<char>
    decreases s.len(),
{
    if s.len() > 0 && is_white_space(s[0]) {
        trim_start(s.drop_first())
    } else {
        s
    }
}

/// `s` without its trailing white space.
pub open spec fn trim_end(s: Seq<char>) -> Seq<char>
    decreases s.len(),
{
    if s.len() > 0 && is_white_space(s.last()) {
        trim_end(s.drop_last())
    } else {
        s
    }
}

/// `s` without leading or trailing white space.
pub open spec fn trimmed(s: Seq<char>) -> Seq<char> {
    trim_end(trim_start(s))
}

/// The texts of `segments`, one after another.
pub open spec fn joined(segments: Seq<String>) -> Seq<char>
    decreases segments.len(),
{
    if segments.len() == 0 {
        Seq::empty()
    } else {
        joined(segments.drop_last()) + segments.last()@
    }
}

/// The recognition result for these segments: their joined text with
/// surrounding white space removed, or nothing where that is empty.
pub open spec fn transcript_of(segments: Seq<String>) -> Option<Seq<char>> {
    let t = trimmed(joined(segments));
    if t.len() == 0 {
        None
    } else {
        Some(t)
    }
}

fn white_space(c: char) -> (r: bool)
    ensures
        r == is_white_space(c),
{
    ('\u{9}' <= c && c <= '\u{d}') || c == ' ' || c == '\u{85}' || c == '\u{a0}' || c == '\u{1680}'
        || ('\u{2000}' <= c && c <= '\u{200a}') || c == '\u{2028}' || c == '\u{2029}' || c
        == '\u{202f}' || c == '\u{205f}' || c == '\u{3000}'
}

/// Removes leading and trailing white space.
pub fn trim(s: &str) -> (r: String)
    ensures
        r@ == trimmed(s@),
{
    let n = s.unicode_len();
    let mut i: usize = 0;
    assert(s@.subrange(0, n as int) =~= s@);
    while i < n && white_space(s.get_char(i))
        invariant
            n == s@.len(),
            i <= n,
            trim_start(s@) == trim_start(s@.subrange(i as int, n as int)),
        decreases n - i,
    {
        assert(s@.subrange(i as int, n as int).drop_first() =~= s@.subrange(i + 1, n as int));
        i += 1;
    }
    assert(trim_start(s@) == s@.subrange(i as int, n as int));
    let mut j: usize = n;
    while j > i && white_space(s.get_char(j - 1))
        invariant
            n == s@.len(),
            i <= j <= n,
            trimmed(s@) == trim_end(s@.subrange(i as int, j as int)),
        decreases j,
    {
        assert(s@.subrange(i as int, j as int).drop_last() =~= s@.subrange(i as int, j - 1));
        j -= 1;
    }
    String::from_str(s.substring_char(i, j))
}

impl Transcriber {
    /// Binds a transcriber to the model at `model_path`; `model_exists`
    /// says whether a file is there. Fails, naming the path, when it is
    /// not.
    pub fn new(model_path: String, language: Option<String>, model_exists: bool) -> (r: Result<
        Transcriber,
        TranscriberError,
    >)
        ensures
            model_exists ==> (r matches Ok(t) && t.model_path == model_path && t.language
                == language),
            !model_exists ==> (r matches Err(TranscriberError::ModelNotFound { path }) && path
                == model_path),
    {
        if !model_exists {
            return Err(TranscriberError::ModelNotFound { path: model_path });
        }
        Ok(Transcriber { model_path, language })
    }

    /// Turns the recogniser's segment texts into the result: joined,
    /// trimmed, and absent when nothing is left.
    pub fn transcript(segments: &Vec<String>) -> (r: Option<String>)
        ensures
            match transcript_of(segments@) {
                Some(t) => r matches Some(s) && s@ == t,
                None => r is None,
            },
    {
        let mut text = String::new();
        let mut k: usize = 0;
        while k < segments.len()
            invariant
                k <= segments@.len(),
                text@ == joined(segments@.subrange(0, k as int)),
            decreases segments.len() - k,
        {
            assert(segments@.subrange(0, k + 1).drop_last() =~= segments@.subrange(0, k as int));
            text.append(segments[k].as_str());
            k += 1;
        }
        assert(segments@.subrange(0, segments@.len() as int) =~= segments@);
        let t = trim(text.as_str());
        if t.as_str().is_empty() {
            None
        } else {
            Some(t)
        }
    }
}

} // verus!
