//! Telemetry lines before their JSON is decoded.
use vstd::prelude::*;
use vstd::string::{to_string_from_display_ensures, StringExecFns};

verus! {

/// Declares `serde_json::Error`, the decoder's error, as an opaque type:
/// values of it are carried through, nothing inside them is read.
#[verifier::external_type_specification]
#[verifier::external_body]
pub struct ExJsonError(serde_json::Error);

/// Errors met while reading one telemetry line.
///
/// The stream treats every variant as "skip this line and keep going".
#[derive(Debug)]
pub enum ParseError {
    /// The line wasn't valid JSON, or didn't deserialize as any of the
    /// seven known kinds, or was missing a required field.
    Decode(serde_json::Error),
    /// The line was empty (no content other than whitespace).
    Empty,
}

impl ParseError {
    /// The error's message, as its `Display` writes it: "empty line", or
    /// "decode error: " followed by the decoder's own message (the
    /// `Display` text of its error).
    pub fn message(&self) -> (m: String)
        ensures
            match self {
                ParseError::Empty => m@ == "empty line"@,
                ParseError::Decode(e) => exists|d: String|
                    #[trigger] to_string_from_display_ensures::<serde_json::Error>(e, d) && m@
                        == "decode error: "@ + d@,
            },
    {
        match self {
            ParseError::Decode(err) => {
                let prefix = String::from_str("decode error: ");
                let detail = err.to_string();
                prefix.concat(detail.as_str())
            },
            ParseError::Empty => String::from_str("empty line"),
        }
    }
}

/// The characters with the Unicode `White_Space` property, the ones that
/// `char::is_whitespace` accepts.
pub open spec fn is_white_space(c: char) -> bool {
    ||| '\u{9}' <= c <= '\u{d}'
    ||| c == ' '
    ||| c == '\u{85}'
    ||| c == '\u{a0}'
    ||| c == '\u{1680}'
    ||| '\u{2000}' <= c <= '\u{200a}'
    ||| c == '\u{2028}'
    ||| c == '\u{2029}'
    ||| c == '\u{202f}'
    ||| c == '\u{205f}'
    ||| c == '\u{3000}'
}

/// `s` without its leading white space.
pub open spec fn trim_start(s: Seq<char>) -> Seq<char>
    decreases s.len(),
{
    if s.len() > 0 && is_white_space(s[0]) {
        trim_start(s.drop_first())
    } else {
        s
    }
}

/// `s` without its trailing white space.
pub open spec fn trim_end(s: Seq<char>) -> Seq<char>
    decreases s.len(),
{
    if s.len() > 0 && is_white_space(s.last()) {
        trim_end(s.drop_last())
    } else {
        s
    }
}

/// `s` without its leading and trailing white space.
pub open spec fn trimmed(s: Seq<char>) -> Seq<char> {
    trim_end(trim_start(s))
}

/// Calls `str::trim`, which returns the string slice with leading and
/// trailing white space (the Unicode `White_Space` property) removed.
#[verifier::external_body]
fn str_trim(s: &str) -> (t: &str)
    ensures
        t@ == trimmed(s@),
{
    s.trim()
}

/// The JSON text of a telemetry line: the line without its surrounding
/// white space.
///
/// A line with nothing but white space is `ParseError::Empty`; any other
/// line goes on to be decoded as an event.
pub fn event_payload(line: &str) -> (r: Result<&str, ParseError>)
    ensures
        trimmed(line@).len() == 0 <==> r matches Err(ParseError::Empty),
        r matches Ok(t) ==> t@ == trimmed(line@),
        r is Ok || r matches Err(ParseError::Empty),
{
    let text = str_trim(line);
    if text.is_empty() {
        return Err(ParseError::Empty);
    }
    Ok(text)
}

/// Every character of `s` is white space.
pub open spec fn all_white_space(s: Seq<char>) -> bool {
    forall|i: int| 0 <= i < s.len() ==> is_white_space(#[trigger] s[i])
}

/// Stripping the leading white space of a concatenation: it stops inside
/// `x` unless `x` is all white space.
proof fn lemma_trim_start_concat(x: Seq<char>, y: Seq<char>)
    ensures
        trim_start(x + y) == if trim_start(x).len() > 0 {
            trim_start(x) + y
        } else {
            trim_start(y)
        },
    decreases x.len(),
{
    if x.len() == 0 {
        assert(x + y =~= y);
    } else if is_white_space(x[0]) {
        assert((x + y).drop_first() =~= x.drop_first() + y);
        lemma_trim_start_concat(x.drop_first(), y);
    } else {
        assert((x + y)[0] == x[0]);
    }
}

/// Trailing white space is stripped whatever it is.
proof fn lemma_trim_end_white_suffix(x: Seq<char>, w: Seq<char>)
    requires
        all_white_space(w),
    ensures
        trim_end(x + w) == trim_end(x),
    decreases w.len(),
{
    if w.len() == 0 {
        assert(x + w =~= x);
    } else {
        assert((x + w).last() == w.last());
        assert((x + w).drop_last() =~= x + w.drop_last());
        lemma_trim_end_white_suffix(x, w.drop_last());
    }
}

/// A run of white space trims to nothing from the front.
proof fn lemma_trim_start_white(w: Seq<char>)
    requires
        all_white_space(w),
    ensures
        trim_start(w).len() == 0,
    decreases w.len(),
{
    if w.len() > 0 {
        lemma_trim_start_white(w.drop_first());
    }
}

/// White space around a line changes neither its JSON text nor whether
/// it is blank: trimming `w1 + s + w2` gives what trimming `s` gives.
pub proof fn law_surrounding_white_space(s: Seq<char>, w1: Seq<char>, w2: Seq<char>)
    requires
        all_white_space(w1),
        all_white_space(w2),
    ensures
        trimmed(w1 + s + w2) == trimmed(s),
{
    lemma_trim_start_white(w1);
    lemma_trim_start_white(w2);
    lemma_trim_start_concat(w1, s + w2);
    assert(w1 + s + w2 =~= w1 + (s + w2));
    lemma_trim_start_concat(s, w2);
    if trim_start(s).len() > 0 {
        lemma_trim_end_white_suffix(trim_start(s), w2);
    } else {
        assert(trim_start(w2) =~= trim_start(s));
    }
}

/// Helper: the leading white space of `s` is a prefix of it.
proof fn lemma_trim_start_shape(s: Seq<char>) -> (i: int)
    ensures
        0 <= i <= s.len(),
        trim_start(s) == s.subrange(i, s.len() as int),
        all_white_space(s.subrange(0, i)),
        trim_start(s).len() > 0 ==> !is_white_space(trim_start(s)[0]),
    decreases s.len(),
{
    if s.len() > 0 && is_white_space(s[0]) {
        let k = lemma_trim_start_shape(s.drop_first());
        assert(s.drop_first().subrange(k, s.drop_first().len() as int) =~= s.subrange(
            k + 1,
            s.len() as int,
        ));
        assert forall|m: int| 0 <= m < k + 1 implies is_white_space(
            #[trigger] s.subrange(0, k + 1)[m],
        ) by {
            if m > 0 {
                assert(s.subrange(0, k + 1)[m] == s.drop_first().subrange(0, k)[m - 1]);
            }
        }
        k + 1
    } else {
        assert(s.subrange(0, s.len() as int) =~= s);
        0
    }
}

/// Helper: the trailing white space of `s` is a suffix of it.
proof fn lemma_trim_end_shape(s: Seq<char>) -> (j: int)
    ensures
        0 <= j <= s.len(),
        trim_end(s) == s.subrange(0, j),
        all_white_space(s.subrange(j, s.len() as int)),
        trim_end(s).len() > 0 ==> !is_white_space(trim_end(s).last()),
    decreases s.len(),
{
    if s.len() > 0 && is_white_space(s.last()) {
        let k = lemma_trim_end_shape(s.drop_last());
        assert(s.drop_last().subrange(0, k) =~= s.subrange(0, k));
        assert forall|m: int| 0 <= m < s.len() - k implies is_white_space(
            #[trigger] s.subrange(k, s.len() as int)[m],
        ) by {
            if m < s.len() - 1 - k {
                assert(s.subrange(k, s.len() as int)[m] == s.drop_last().subrange(
                    k,
                    s.len() - 1,
                )[m]);
            }
        }
        k
    } else {
        assert(s.subrange(0, s.len() as int) =~= s);
        s.len() as int
    }
}

/// Trimming keeps a contiguous piece of the line and drops only white
/// space around it: the text is `s[i..j]`, everything before `i` and from
/// `j` on is white space, and a non-empty text neither starts nor ends
/// with white space.
pub proof fn law_trimmed_is_the_line_without_outer_white_space(s: Seq<char>)
    ensures
        exists|i: int, j: int|
            0 <= i <= j <= s.len() && #[trigger] s.subrange(i, j) == trimmed(s) && all_white_space(
                s.subrange(0, i),
            ) && all_white_space(s.subrange(j, s.len() as int)),
        trimmed(s).len() > 0 ==> !is_white_space(trimmed(s)[0]) && !is_white_space(
            trimmed(s).last(),
        ),
{
    let i = lemma_trim_start_shape(s);
    let t = trim_start(s);
    let k = lemma_trim_end_shape(t);
    let j = i + k;
    assert(s.subrange(i, j) =~= t.subrange(0, k));
    assert(s.subrange(j, s.len() as int) =~= t.subrange(k, t.len() as int));
    if trimmed(s).len() > 0 {
        assert(trimmed(s)[0] == t[0]);
    }
}

} // verus!
