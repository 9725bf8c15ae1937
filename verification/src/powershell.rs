//! Quoting text for PowerShell scripts, and reading what a script run gave back.
use vstd::prelude::*;
use vstd::string::*;
use crate::text::{
    chars_of, int_text, int_string, push_char, string_of, trim_chars, trimmed,
};

verus! {

/// One character as it stands inside a single-quoted PowerShell string: a quote
/// is doubled.
pub open spec fn quoted_char(c: char) -> Seq<char> {
    if c == '\'' {
        seq!['\'', '\'']
    } else {
        seq![c]
    }
}

/// A text as it stands inside a single-quoted PowerShell string.
pub open spec fn quoted(s: Seq<char>) -> Seq<char>
    decreases s.len(),
{
    if s.len() == 0 {
        Seq::empty()
    } else {
        quoted(s.drop_last()) + quoted_char(s.last())
    }
}

/// A quoted text read back: each doubled quote stands for one quote.
pub open spec fn unquoted(t: Seq<char>) -> Seq<char>
    decreases t.len(),
{
    if t.len() == 0 {
        Seq::empty()
    } else if t.len() >= 2 && t[0] == '\'' && t[1] == '\'' {
        seq!['\''] + unquoted(t.skip(2))
    } else {
        seq![t[0]] + unquoted(t.drop_first())
    }
}

proof fn lemma_quoted_concat(a: Seq<char>, b: Seq<char>)
    ensures
        quoted(a + b) == quoted(a) + quoted(b),
    decreases b.len(),
{
    if b.len() == 0 {
        assert(a + b =~= a);
        assert(quoted(b) =~= Seq::<char>::empty());
        assert(quoted(a) + quoted(b) =~= quoted(a));
    } else {
        lemma_quoted_concat(a, b.drop_last());
        assert((a + b).drop_last() =~= a + b.drop_last());
        assert((a + b).last() == b.last());
        assert(quoted(a) + quoted(b) =~= quoted(a) + quoted(b.drop_last()) + quoted_char(b.last()));
    }
}

/// Reading a quoted value back gives the value: quoting loses nothing.
pub proof fn lemma_unquote_quoted(s: Seq<char>)
    ensures
        unquoted(quoted(s)) == s,
    decreases s.len(),
{
    if s.len() > 0 {
        let rest = s.drop_first();
        assert(s =~= seq![s[0]] + rest);
        lemma_quoted_concat(seq![s[0]], rest);
        let one = seq![s[0]];
        assert(one.drop_last() =~= Seq::<char>::empty());
        assert(one.last() == s[0]);
        assert(quoted(one.drop_last()) =~= Seq::<char>::empty());
        assert(quoted(one) =~= quoted(one.drop_last()) + quoted_char(one.last()));
        assert(quoted(one) =~= quoted_char(s[0]));
        lemma_unquote_quoted(rest);
        let t = quoted(s);
        assert(t =~= quoted_char(s[0]) + quoted(rest));
        if s[0] == '\'' {
            assert(t.skip(2) =~= quoted(rest));
        } else {
            assert(t.drop_first() =~= quoted(rest));
        }
    }
}

/// Escapes a value for use inside a single-quoted PowerShell string: every `'`
/// becomes `''`.
pub fn literal(value: &str) -> (r: String)
    ensures
        r@ == quoted(value@),
{
    let v = chars_of(value);
    let mut r = String::new();
    let mut i: usize = 0;
    while i < v.len()
        invariant
            i <= v.len(),
            r@ == quoted(v@.take(i as int)),
        decreases v.len() - i,
    {
        let c = v[i];
        proof {
            assert(v@.take(i + 1).drop_last() =~= v@.take(i as int));
        }
        if c == '\'' {
            push_char(&mut r, '\'');
            push_char(&mut r, '\'');
            assert(r@ =~= quoted(v@.take(i as int)) + quoted_char(c));
        } else {
            push_char(&mut r, c);
            assert(r@ =~= quoted(v@.take(i as int)) + quoted_char(c));
        }
        i = i + 1;
    }
    assert(v@.take(v.len() as int) =~= v@);
    r
}

/// What a PowerShell run gives back: on success its trimmed output; on failure its
/// trimmed error output, else its trimmed output, else a note of its exit code
/// (-1 when it has none).
pub open spec fn outcome_of(
    success: bool,
    stdout: Seq<char>,
    stderr: Seq<char>,
    exit_code: Option<i32>,
) -> Result<Seq<char>, Seq<char>> {
    if success {
        Ok(trimmed(stdout))
    } else if trimmed(stderr).len() > 0 {
        Err(trimmed(stderr))
    } else if trimmed(stdout).len() > 0 {
        Err(trimmed(stdout))
    } else {
        Err(
            "PowerShell exited with code "@ + int_text(
                match exit_code {
                    Some(c) => c as int,
                    None => -1,
                },
            ),
        )
    }
}

/// Turns what a PowerShell run printed, and how it ended, into the script's
/// result.
pub fn run_script_outcome(success: bool, stdout: &str, stderr: &str, exit_code: Option<i32>) -> (r:
    Result<String, String>)
    ensures
        match (r, outcome_of(success, stdout@, stderr@, exit_code)) {
            (Ok(a), Ok(b)) => a@ == b,
            (Err(a), Err(b)) => a@ == b,
            _ => false,
        },
{
    let out = trim_chars(&chars_of(stdout));
    if success {
        return Ok(string_of(&out));
    }
    let err = trim_chars(&chars_of(stderr));
    if err.len() > 0 {
        return Err(string_of(&err));
    }
    if out.len() > 0 {
        return Err(string_of(&out));
    }
    let code: i64 = match exit_code {
        Some(c) => c as i64,
        None => -1,
    };
    let mut msg = String::from_str("PowerShell exited with code ");
    let n = int_string(code);
    msg.append(n.as_str());
    Err(msg)
}

/// A script made of `head`, then `value` quoted for a single-quoted string, then
/// `tail`.
pub fn script_with(head: &str, value: &str, tail: &str) -> (r: String)
    ensures
        r@ == head@ + quoted(value@) + tail@,
{
    let mut s = String::from_str(head);
    let q = literal(value);
    s.append(q.as_str());
    s.append(tail);
    s
}

} // verus!
