//! The command launcher: expanding `%` field codes in a launch-command
//! template. File, URL and icon substitution is deliberately unimplemented:
//! every code expands to the empty string, except `%%`, which is the escape
//! for a literal `%`.

use vstd::prelude::*;
use vstd::string::StrSliceExecFns;

use crate::entry::ApplicationEntry;

verus! {

/// What one field code expands to: `%%` is a literal `%`; every other code,
/// recognized (`f`, `F`, `u`, `U`, `i`, `c`, `k`) or not, expands to the
/// empty string.
pub open spec fn code_expansion(c: char) -> Seq<char> {
    if c == '%' {
        seq!['%']
    } else {
        Seq::empty()
    }
}

/// A template with every `%`-plus-one-character pair replaced by its
/// expansion, scanning left to right without overlap. A trailing `%` with no
/// character after it stays as it is.
pub open spec fn expand_spec(s: Seq<char>) -> Seq<char>
    decreases s.len(),
{
    if s.len() == 0 {
        Seq::empty()
    } else if s.first() == '%' && s.len() >= 2 {
        code_expansion(s[1]) + expand_spec(s.skip(2))
    } else {
        seq![s.first()] + expand_spec(s.skip(1))
    }
}

/// Relies on String::push: appends one character at the end of the string.
#[verifier::external_body]
fn push_char(s: &mut String, c: char)
    ensures
        final(s)@ == old(s)@.push(c),
{
    s.push(c);
}

/// The template with its field codes expanded, per `expand_spec`.
pub fn expand_field_codes(template: &str) -> (r: String)
    ensures
        r@ == expand_spec(template@),
{
    let n = template.unicode_len();
    let mut out = String::new();
    let mut i: usize = 0;
    proof {
        assert(template@.skip(0) =~= template@);
        assert(out@ + expand_spec(template@) =~= expand_spec(template@));
    }
    while i < n
        invariant
            i <= n,
            n == template@.len(),
            expand_spec(template@) == out@ + expand_spec(template@.skip(i as int)),
        decreases n - i,
    {
        let c = template.get_char(i);
        proof {
            assert(template@.skip(i as int).first() == template@[i as int]);
        }
        if c == '%' && i + 1 < n {
            let code = template.get_char(i + 1);
            if code == '%' {
                push_char(&mut out, '%');
            }
            proof {
                assert(template@.skip(i as int)[1] == template@[i + 1]);
                assert(template@.skip(i as int).skip(2) =~= template@.skip(i + 2));
                assert(expand_spec(template@) =~= out@ + expand_spec(template@.skip(i + 2)));
            }
            i += 2;
        } else {
            push_char(&mut out, c);
            proof {
                assert(template@.skip(i as int).skip(1) =~= template@.skip(i + 1));
                assert(expand_spec(template@) =~= out@ + expand_spec(template@.skip(i + 1)));
            }
            i += 1;
        }
    }
    proof {
        assert(template@.skip(n as int) =~= Seq::<char>::empty());
        assert(out@ =~= out@ + expand_spec(template@.skip(n as int)));
    }
    out
}

/// The shell command to spawn for an entry: its expanded template, or
/// nothing when the entry has no launch command. Spawning itself is the
/// host's work, fire-and-forget.
pub fn launch_command(entry: &ApplicationEntry) -> (r: Option<String>)
    ensures
        entry.exec_template matches Some(t) ==> (r matches Some(c) && c@ == expand_spec(t@)),
        entry.exec_template is None ==> r is None,
{
    match &entry.exec_template {
        Some(t) => Some(expand_field_codes(t.as_str())),
        None => None,
    }
}

} // verus!
