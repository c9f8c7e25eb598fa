//! Building the AppleScript that shows a fallback notification.
//!
//! During local development the host may not be registered with the
//! system notification center, so it falls back to `osascript`. The
//! script text embeds the caller's title and body inside double-quoted
//! AppleScript literals; this module builds that text, escaping the two
//! characters that would break out of such a literal. Running the
//! script is the host's job.

use vstd::prelude::*;
use vstd::string::StrSliceExecFns;
use vstd::string::StringExecFns;

verus! {

/// How one character is written inside a double-quoted AppleScript
/// literal: backslashes and double quotes gain a leading backslash,
/// every other character stands as itself.
pub open spec fn escaped_char(c: char) -> Seq<char> {
    if c == '\\' {
        seq!['\\', '\\']
    } else if c == '"' {
        seq!['\\', '"']
    } else {
        seq![c]
    }
}

/// A whole string escaped character by character.
pub open spec fn escaped(s: Seq<char>) -> Seq<char>
    decreases s.len(),
{
    if s.len() == 0 {
        Seq::empty()
    } else {
        escaped_char(s[0]) + escaped(s.drop_first())
    }
}

/// The complete script: `display notification "<body>" with title
/// "<title>"`, both insertions escaped.
pub open spec fn script_view(title: Seq<char>, body: Seq<char>) -> Seq<char> {
    "display notification \""@ + escaped(body) + "\" with title \""@ + escaped(title) + "\""@
}

/// Escaping a string one character longer appends that character's escape.
proof fn lemma_escaped_snoc(s: Seq<char>, c: char)
    ensures
        escaped(s.push(c)) == escaped(s) + escaped_char(c),
    decreases s.len(),
{
    if s.len() == 0 {
        assert(s.push(c)[0] == c);
        assert(s.push(c).drop_first() =~= Seq::<char>::empty());
        assert(escaped(Seq::<char>::empty()) == Seq::<char>::empty());
        assert(escaped(s.push(c)) == escaped_char(c) + Seq::<char>::empty());
        assert(escaped_char(c) + Seq::<char>::empty() =~= escaped_char(c));
        assert(escaped(s) + escaped_char(c) =~= escaped_char(c));
    } else {
        assert(s.push(c)[0] == s[0]);
        assert(s.push(c).drop_first() =~= s.drop_first().push(c));
        lemma_escaped_snoc(s.drop_first(), c);
        assert(escaped_char(s[0]) + (escaped(s.drop_first()) + escaped_char(c)) =~= (escaped_char(
            s[0],
        ) + escaped(s.drop_first())) + escaped_char(c));
    }
}

/// Relies on `String::push`: appends the given character to the end of
/// the string.
#[verifier::external_body]
fn push_char(s: &mut String, c: char)
    ensures
        final(s)@ == old(s)@ + seq![c],
{
    s.push(c);
}

/// Escape a string for inclusion in a double-quoted AppleScript literal.
pub fn applescript_escape(s: &str) -> (r: String)
    ensures
        r@ == escaped(s@),
{
    let n = s.unicode_len();
    let mut out = String::new();
    let mut i: usize = 0;
    proof {
        assert(s@.subrange(0, 0) =~= Seq::<char>::empty());
    }
    while i < n
        invariant
            n == s@.len(),
            i <= n,
            out@ == escaped(s@.subrange(0, i as int)),
        decreases n - i,
    {
        let c = s.get_char(i);
        proof {
            assert(s@.subrange(0, i as int + 1) =~= s@.subrange(0, i as int).push(s@[i as int]));
            lemma_escaped_snoc(s@.subrange(0, i as int), s@[i as int]);
        }
        if c == '\\' {
            push_char(&mut out, '\\');
            push_char(&mut out, '\\');
        } else if c == '"' {
            push_char(&mut out, '\\');
            push_char(&mut out, '"');
        } else {
            push_char(&mut out, c);
        }
        proof {
            assert(out@ =~= escaped(s@.subrange(0, i as int + 1)));
        }
        i += 1;
    }
    proof {
        assert(s@.subrange(0, n as int) =~= s@);
    }
    out
}

/// Build the complete notification script for a title and a body.
pub fn notification_script(title: &str, body: &str) -> (r: String)
    ensures
        r@ == script_view(title@, body@),
{
    let escaped_body = applescript_escape(body);
    let escaped_title = applescript_escape(title);
    let mut out = String::from_str("display notification \"");
    out.append(escaped_body.as_str());
    out.append("\" with title \"");
    out.append(escaped_title.as_str());
    out.append("\"");
    proof {
        assert(out@ =~= script_view(title@, body@));
    }
    out
}

} // verus!
