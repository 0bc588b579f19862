use vstd::prelude::*;
use vstd::string::*;
use crate::outcome::{OutcomeView, ParseError, PingOutcome, RawCapture};

verus! {

/// The "verbatim" strategy: the output itself, as a success or a failure
/// according to the exit status.
pub fn interpret_verbatim(capture: RawCapture) -> (r: PingOutcome)
    ensures
        capture.succeeded ==> r@ == OutcomeView::Success(capture.stdout_text@),
        !capture.succeeded ==> r@ == OutcomeView::Failure(capture.stdout_text@),
{
    if capture.succeeded {
        PingOutcome::Success(capture.stdout_text)
    } else {
        PingOutcome::Failure(capture.stdout_text)
    }
}


/// Whitespace that ends a word: the characters with the Unicode White_Space
/// property, tab through carriage return, the space, next line, no-break space
/// and the wider spaces and separators.
pub open spec fn is_space(c: char) -> bool {
    c == ' ' || ('\t' as u32 <= c as u32 && c as u32 <= '\r' as u32) || c == '\u{85}'
        || c == '\u{A0}' || c == '\u{1680}' || ('\u{2000}' as u32 <= c as u32 && c as u32
        <= '\u{200A}' as u32) || c == '\u{2028}' || c == '\u{2029}' || c == '\u{202F}'
        || c == '\u{205F}' || c == '\u{3000}'
}

/// Whitespace that stays within one line.
pub open spec fn is_blank(c: char) -> bool {
    is_space(c) && c != '\n'
}

/// The five characters `time=` start at index `i` of `s`.
pub open spec fn marker_at(s: Seq<char>, i: int) -> bool {
    0 <= i && i + 5 <= s.len() && s[i] == 't' && s[i + 1] == 'i' && s[i + 2] == 'm'
        && s[i + 3] == 'e' && s[i + 4] == '='
}

/// The first index at or after `i` where `time=` starts. The first line that
/// holds `time=` is the line of this index, since the marker holds no line break.
pub open spec fn marker_from(s: Seq<char>, i: int) -> Option<int>
    decreases s.len() - i,
{
    if i < 0 || i + 5 > s.len() {
        None
    } else if marker_at(s, i) {
        Some(i)
    } else {
        marker_from(s, i + 1)
    }
}

/// The first index at or after `i` that does not hold blank space.
pub open spec fn skip_blank(s: Seq<char>, i: int) -> int
    decreases s.len() - i,
{
    if i < 0 || i >= s.len() || !is_blank(s[i]) {
        i
    } else {
        skip_blank(s, i + 1)
    }
}

/// The first index at or after `i` that holds whitespace or starts another
/// `time=`, or the end of `s`: a word ends with the piece of the line that
/// follows one `time=`.
pub open spec fn token_end(s: Seq<char>, i: int) -> int
    decreases s.len() - i,
{
    if i < 0 || i >= s.len() || is_space(s[i]) || marker_at(s, i) {
        i
    } else {
        token_end(s, i + 1)
    }
}

/// The latency figure of a ping transcript: on the first line that holds
/// `time=`, the first whitespace-separated word of the piece that follows it,
/// up to the next `time=`. None where no line holds `time=`, or where that
/// piece holds nothing but blank space on its line.
pub open spec fn latency_of(s: Seq<char>) -> Option<Seq<char>> {
    match marker_from(s, 0) {
        None => None,
        Some(p) => {
            let a = skip_blank(s, p + 5);
            let b = token_end(s, a);
            if a < b {
                Some(s.subrange(a, b))
            } else {
                None
            }
        },
    }
}

/// The message of a failed extraction.
pub open spec fn no_timing_line() -> Seq<char> {
    "no timing line found"@
}

proof fn lemma_no_marker_from(s: Seq<char>, i: int)
    requires
        forall|j: int| !marker_at(s, j),
    ensures
        marker_from(s, i) is None,
    decreases s.len() - i,
{
    if 0 <= i && i + 5 <= s.len() {
        lemma_no_marker_from(s, i + 1);
    }
}

/// Text in which `time=` occurs nowhere, on no line, has no latency figure.
pub proof fn lemma_no_marker_no_latency(s: Seq<char>)
    requires
        forall|i: int| !marker_at(s, i),
    ensures
        latency_of(s) is None,
{
    lemma_no_marker_from(s, 0);
}

proof fn lemma_skip_blank_bounds(s: Seq<char>, i: int)
    requires
        0 <= i,
    ensures
        i <= skip_blank(s, i),
    decreases s.len() - i,
{
    if i < s.len() && is_blank(s[i]) {
        lemma_skip_blank_bounds(s, i + 1);
    }
}

proof fn lemma_token_end_bounds(s: Seq<char>, i: int)
    requires
        0 <= i <= s.len(),
    ensures
        i <= token_end(s, i) <= s.len(),
    decreases s.len() - i,
{
    if i < s.len() && !is_space(s[i]) && !marker_at(s, i) {
        lemma_token_end_bounds(s, i + 1);
    }
}

proof fn lemma_token_has_no_space(s: Seq<char>, a: int, k: int)
    requires
        0 <= a <= k < token_end(s, a),
    ensures
        !is_space(s[k]),
    decreases k - a,
{
    if a < k {
        lemma_token_has_no_space(s, a + 1, k);
    }
}

/// A latency figure is a word: it is not empty and holds no whitespace.
pub proof fn lemma_latency_is_word(s: Seq<char>)
    requires
        latency_of(s) is Some,
    ensures
        latency_of(s)->0.len() > 0,
        forall|k: int| 0 <= k < latency_of(s)->0.len() ==> !is_space(#[trigger] latency_of(s)->0[k]),
{
    let p = marker_from(s, 0)->0;
    let a = skip_blank(s, p + 5);
    let b = token_end(s, a);
    lemma_skip_blank_bounds(s, p + 5);
    if a <= s.len() {
        lemma_token_end_bounds(s, a);
    }
    assert forall|k: int| 0 <= k < latency_of(s)->0.len() implies !is_space(
        #[trigger] latency_of(s)->0[k],
    ) by {
        lemma_token_has_no_space(s, a, a + k);
    }
}

fn space_char(c: char) -> (r: bool)
    ensures
        r == is_space(c),
{
    c == ' ' || ('\t' as u32 <= c as u32 && c as u32 <= '\r' as u32) || c == '\u{85}'
        || c == '\u{A0}' || c == '\u{1680}' || ('\u{2000}' as u32 <= c as u32 && c as u32
        <= '\u{200A}' as u32) || c == '\u{2028}' || c == '\u{2029}' || c == '\u{202F}'
        || c == '\u{205F}' || c == '\u{3000}'
}

fn marker_here(text: &str, i: usize) -> (r: bool)
    requires
        i <= text@.len(),
    ensures
        r == marker_at(text@, i as int),
{
    let n = text.unicode_len();
    n - i >= 5 && text.get_char(i) == 't' && text.get_char(i + 1) == 'i' && text.get_char(i + 2)
        == 'm' && text.get_char(i + 3) == 'e' && text.get_char(i + 4) == '='
}

fn blank_char(c: char) -> (r: bool)
    ensures
        r == is_blank(c),
{
    space_char(c) && c != '\n'
}

/// Extracts the latency figure from a ping transcript (see [`latency_of`]).
pub fn extract_latency(text: &str) -> (r: Result<String, ParseError>)
    ensures
        match r {
            Ok(t) => latency_of(text@) == Some(t@),
            Err(_) => latency_of(text@) is None,
        },
{
    let ghost s = text@;
    let n = text.unicode_len();
    let mut i: usize = 0;
    while i < n && n - i >= 5
        invariant
            n == s.len(),
            s == text@,
            i <= n,
            marker_from(s, i as int) == marker_from(s, 0),
        decreases n - i,
    {
        if marker_here(text, i) {
            assert(marker_from(s, 0) == Some(i as int));
            let start: usize = i + 5;
            let mut a: usize = start;
            while a < n && blank_char(text.get_char(a))
                invariant
                    n == s.len(),
                    s == text@,
                    start <= a <= n,
                    skip_blank(s, a as int) == skip_blank(s, start as int),
                decreases n - a,
            {
                a += 1;
            }
            let mut b: usize = a;
            while b < n && !space_char(text.get_char(b)) && !marker_here(text, b)
                invariant
                    n == s.len(),
                    s == text@,
                    a <= b <= n,
                    token_end(s, b as int) == token_end(s, a as int),
                decreases n - b,
            {
                b += 1;
            }
            if a < b {
                return Ok(String::from_str(text.substring_char(a, b)));
            } else {
                return Err(ParseError);
            }
        }
        i += 1;
    }
    Err(ParseError)
}

/// What the "latency-extract" strategy makes of a transcript.
pub open spec fn latency_outcome(s: Seq<char>) -> OutcomeView {
    match latency_of(s) {
        Some(t) => OutcomeView::Success(t),
        None => OutcomeView::Failure(no_timing_line()),
    }
}

/// The "latency-extract" strategy: the latency figure as a success, or the
/// parse error as a failure. The exit status plays no part.
pub fn interpret_latency(capture: RawCapture) -> (r: PingOutcome)
    ensures
        r@ == latency_outcome(capture.stdout_text@),
{
    match extract_latency(capture.stdout_text.as_str()) {
        Ok(t) => PingOutcome::Success(t),
        Err(e) => PingOutcome::Failure(e.description()),
    }
}

} // verus!
