use vstd::prelude::*;

verus! {

/// Result of OCR text recognition.
///
/// The confidence (the average over the recognized lines, from 0.0 to 1.0)
/// is kept as the bit pattern of its IEEE-754 double.
#[derive(Debug)]
pub struct OcrResult {
    /// Extracted text (the recognized lines, one per line).
    pub text: String,
    /// Average confidence, as `f64::to_bits` of the value.
    pub confidence: u64,
}

impl Clone for OcrResult {
    fn clone(&self) -> (r: Self)
        ensures
            r == *self,
    {
        OcrResult { text: self.text.clone(), confidence: self.confidence }
    }
}

impl OcrResult {
    /// No text, with confidence 0.0: what an image without text, or a failed
    /// recognition, yields.
    pub fn empty() -> (r: Self)
        ensures
            r.text@.len() == 0,
            r.confidence == 0,
    {
        OcrResult { text: String::new(), confidence: 0 }
    }
}

impl OcrResult {
    /// The result of a recognition, or the empty result where it failed.
    pub fn or_empty(result: Option<OcrResult>) -> (r: Self)
        ensures
            match result {
                Some(o) => r == o,
                None => r.text@.len() == 0 && r.confidence == 0,
            },
    {
        match result {
            Some(o) => o,
            None => OcrResult::empty(),
        }
    }
}

/// The text after one more recognized line: empty lines are skipped, and
/// lines are separated by a newline.
pub open spec fn with_line(text: Seq<char>, line: Seq<char>) -> Seq<char> {
    if line.len() == 0 {
        text
    } else if text.len() == 0 {
        line
    } else {
        text + seq!['\n'] + line
    }
}

/// The text that a sequence of recognized lines makes.
pub open spec fn lines_text(lines: Seq<Seq<char>>) -> Seq<char>
    decreases lines.len(),
{
    if lines.len() == 0 {
        seq![]
    } else {
        with_line(lines_text(lines.drop_last()), lines.last())
    }
}

/// Add a recognized line to the text; returns whether it was kept (only
/// non-empty lines are), so that its confidence counts towards the average.
pub fn add_line(text: &mut String, line: &str) -> (kept: bool)
    ensures
        kept == (line@.len() > 0),
        final(text)@ == with_line(old(text)@, line@),
{
    if line.is_empty() {
        return false;
    }
    if !text.as_str().is_empty() {
        let ghost before = text@;
        text.append("\n");
        proof {
            reveal_strlit("\n");
        }
        assert(text@ == before + seq!['\n']);
    }
    text.append(line);
    true
}

/// The recognized text has no empty line: an empty text has no line at
/// all, and otherwise it neither starts nor ends with a newline, nor holds
/// two newlines in a row, where no line holds a newline.
pub proof fn recognized_text_has_no_empty_lines(lines: Seq<Seq<char>>)
    requires
        forall|i: int, k: int|
            0 <= i < lines.len() && 0 <= k < lines[i].len() ==> #[trigger] lines[i][k] != '\n',
    ensures
        lines_text(lines).len() > 0 ==> lines_text(lines)[0] != '\n' && lines_text(lines).last()
            != '\n',
        forall|k: int|
            0 <= k < lines_text(lines).len() - 1 && #[trigger] lines_text(lines)[k] == '\n'
                ==> lines_text(lines)[k + 1] != '\n',
    decreases lines.len(),
{
    if lines.len() > 0 {
        let rest = lines.drop_last();
        assert forall|i: int, k: int| 0 <= i < rest.len() && 0 <= k < rest[i].len() implies #[trigger] rest[i][k]
            != '\n' by {
            assert(rest[i] == lines[i]);
        }
        recognized_text_has_no_empty_lines(rest);
        let t = lines_text(rest);
        let l = lines.last();
        assert(forall|k: int| 0 <= k < l.len() ==> l[k] != '\n') by {
            assert(l == lines[lines.len() - 1]);
        }
        if l.len() > 0 && t.len() > 0 {
            let r = t + seq!['\n'] + l;
            assert(lines_text(lines) == r);
            assert forall|k: int| 0 <= k < r.len() - 1 && #[trigger] r[k] == '\n' implies r[k + 1]
                != '\n' by {
                if k < t.len() - 1 {
                    assert(r[k] == t[k]);
                    assert(r[k + 1] == t[k + 1]);
                } else if k == t.len() - 1 {
                    assert(r[k] == t[k]);
                } else if k == t.len() {
                    assert(r[k + 1] == l[0]);
                } else {
                    assert(r[k] == l[k - t.len() - 1]);
                    assert(r[k + 1] == l[k - t.len()]);
                }
            }
            assert(r.last() == l.last());
            assert(r[0] == t[0]);
        }
    }
}

} // verus!
