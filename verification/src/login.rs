//! The spoofed login response payload.
//!
//! One endpoint handler replaces the target's login panel with a canned
//! response read from a local file. The payload handed to the login callback
//! is decided here: the file's first line, trimmed, when it is syntactically
//! valid JSON, and a fixed JSON error object when the file is missing or its
//! first line is not JSON. Reading the file and invoking the callback happen
//! outside the library.

use vstd::prelude::*;
use vstd::string::StrSliceExecFns;
use vstd::string::StringExecFns;

verus! {

/// Whether serde_json accepts the text as a JSON document.
pub uninterp spec fn json_is_valid(s: Seq<char>) -> bool;

/// Relies on serde_json::from_str::<Value>: whether the text parses as JSON
/// is a function of its characters alone.
#[verifier::external_body]
fn json_syntax_ok(s: &str) -> (r: bool)
    ensures
        r == json_is_valid(s@),
{
    serde_json::from_str::<serde_json::Value>(s).is_ok()
}

/// The whitespace characters trimmed from the payload line.
pub open spec fn is_ascii_space(c: char) -> bool {
    c == ' ' || c == '\t' || c == '\n' || c == '\u{b}' || c == '\u{c}' || c == '\r'
}

fn ascii_space(c: char) -> (r: bool)
    ensures
        r == is_ascii_space(c),
{
    c == ' ' || c == '\t' || c == '\n' || c == '\u{b}' || c == '\u{c}' || c == '\r'
}

/// The characters before the first line break.
pub open spec fn spec_first_line(s: Seq<char>) -> Seq<char>
    decreases s.len(),
{
    if s.len() == 0 {
        s
    } else if s[0] == '\n' {
        Seq::empty()
    } else {
        seq![s[0]] + spec_first_line(s.drop_first())
    }
}

/// The sequence with its leading whitespace removed.
pub open spec fn spec_trim_start(s: Seq<char>) -> Seq<char>
    decreases s.len(),
{
    if s.len() > 0 && is_ascii_space(s[0]) {
        spec_trim_start(s.drop_first())
    } else {
        s
    }
}

/// The sequence with its trailing whitespace removed.
pub open spec fn spec_trim_end(s: Seq<char>) -> Seq<char>
    decreases s.len(),
{
    if s.len() > 0 && is_ascii_space(s.last()) {
        spec_trim_end(s.drop_last())
    } else {
        s
    }
}

/// The sequence with whitespace removed from both ends.
pub open spec fn spec_trim(s: Seq<char>) -> Seq<char> {
    spec_trim_end(spec_trim_start(s))
}

proof fn lemma_first_line_is_prefix(s: Seq<char>, n: int)
    requires
        0 <= n <= s.len(),
        forall|j: int| 0 <= j < n ==> s[j] != '\n',
        n == s.len() || s[n] == '\n',
    ensures
        spec_first_line(s) == s.subrange(0, n),
    decreases n,
{
    if s.len() == 0 {
        assert(s.subrange(0, n) =~= s);
    } else if n == 0 {
        if s[0] == '\n' {
            assert(s.subrange(0, 0) =~= Seq::<char>::empty());
        } else {
            assert(false);
        }
    } else {
        let t = s.drop_first();
        assert(forall|j: int| 0 <= j < n - 1 ==> t[j] != '\n');
        lemma_first_line_is_prefix(t, n - 1);
        assert(seq![s[0]] + t.subrange(0, n - 1) =~= s.subrange(0, n));
    }
}

proof fn lemma_trim_start_is_suffix(s: Seq<char>, a: int)
    requires
        0 <= a <= s.len(),
        forall|j: int| 0 <= j < a ==> is_ascii_space(s[j]),
        a == s.len() || !is_ascii_space(s[a]),
    ensures
        spec_trim_start(s) == s.subrange(a, s.len() as int),
    decreases a,
{
    if a == 0 {
        assert(s.subrange(0, s.len() as int) =~= s);
    } else {
        let t = s.drop_first();
        assert(forall|j: int| 0 <= j < a - 1 ==> is_ascii_space(t[j]));
        lemma_trim_start_is_suffix(t, a - 1);
        assert(t.subrange(a - 1, t.len() as int) =~= s.subrange(a, s.len() as int));
    }
}

proof fn lemma_trim_end_is_prefix(s: Seq<char>, b: int)
    requires
        0 <= b <= s.len(),
        forall|j: int| b <= j < s.len() ==> is_ascii_space(s[j]),
        b == 0 || !is_ascii_space(s[b - 1]),
    ensures
        spec_trim_end(s) == s.subrange(0, b),
    decreases s.len(),
{
    if b == s.len() {
        if s.len() > 0 && is_ascii_space(s.last()) {
            assert(false);
        }
        assert(s.subrange(0, b) =~= s);
    } else {
        let t = s.drop_last();
        assert(forall|j: int| b <= j < t.len() ==> is_ascii_space(t[j]));
        lemma_trim_end_is_prefix(t, b);
        assert(t.subrange(0, b) =~= s.subrange(0, b));
    }
}

/// The first line of `content`, trimmed of surrounding whitespace.
pub fn first_line_trimmed(content: &str) -> (r: String)
    ensures
        r@ == spec_trim(spec_first_line(content@)),
{
    let total = content.unicode_len();
    let mut n: usize = 0;
    while n < total && content.get_char(n) != '\n'
        invariant
            n <= total,
            total == content@.len(),
            forall|j: int| 0 <= j < n ==> content@[j] != '\n',
        decreases total - n,
    {
        n = n + 1;
    }
    proof {
        lemma_first_line_is_prefix(content@, n as int);
    }
    let ghost line = content@.subrange(0, n as int);
    let mut a: usize = 0;
    while a < n && ascii_space(content.get_char(a))
        invariant
            a <= n <= total,
            total == content@.len(),
            forall|j: int| 0 <= j < a ==> is_ascii_space(content@[j]),
        decreases n - a,
    {
        a = a + 1;
    }
    let mut b: usize = n;
    while b > a && ascii_space(content.get_char(b - 1))
        invariant
            a <= b <= n <= total,
            total == content@.len(),
            forall|j: int| b <= j < n ==> is_ascii_space(content@[j]),
        decreases b,
    {
        b = b - 1;
    }
    proof {
        assert(forall|j: int| 0 <= j < a ==> line[j] == content@[j] && is_ascii_space(line[j]));
        assert(a == line.len() || !is_ascii_space(line[a as int]));
        lemma_trim_start_is_suffix(line, a as int);
        let started = line.subrange(a as int, line.len() as int);
        assert(forall|j: int|
            b - a <= j < started.len() ==> started[j] == content@[j + a] && is_ascii_space(
                started[j],
            ));
        assert(b - a == 0 || !is_ascii_space(started[b - a - 1]));
        lemma_trim_end_is_prefix(started, b - a);
        assert(started.subrange(0, b - a) =~= content@.subrange(a as int, b as int));
    }
    let piece = content.substring_char(a, b);
    piece.to_owned()
}

/// The payload handed to the target's login callback.
///
/// With no file content, a fixed not-found error object. Otherwise the
/// file's first line, trimmed, when it is valid JSON; a fixed invalid-format
/// error object when it is not.
pub fn login_payload(file_content: Option<&str>) -> (r: String)
    ensures
        file_content is None ==> r@ == "{\"code\":-1,\"data\":{\"message\":\"file not found\"}}"@,
        file_content matches Some(c) ==> {
            let line = spec_trim(spec_first_line(c@));
            &&& (json_is_valid(line) ==> r@ == line)
            &&& (!json_is_valid(line) ==> r@
                == "{\"code\":-1,\"data\":{\"message\":\"invalid json format\"}}"@)
        },
{
    match file_content {
        Option::None => String::from_str(
            "{\"code\":-1,\"data\":{\"message\":\"file not found\"}}",
        ),
        Option::Some(content) => {
            let line = first_line_trimmed(content);
            if json_syntax_ok(line.as_str()) {
                line
            } else {
                String::from_str("{\"code\":-1,\"data\":{\"message\":\"invalid json format\"}}")
            }
        },
    }
}

/// The export name of the login-panel routine that is intercepted once the
/// variant's SDK module is loaded.
pub fn login_export_name() -> (r: String)
    ensures
        r@ == "SDKShowLoginPanel"@,
{
    String::from_str("SDKShowLoginPanel")
}

} // verus!
