use vstd::prelude::*;

verus! {

/// Whether `c` is an ASCII upper-case letter.
pub open spec fn is_ascii_upper(c: char) -> bool {
    'A' <= c && c <= 'Z'
}

/// The code of `c` once an ASCII upper-case letter is brought to lower case.
pub open spec fn lower_code(c: char) -> u32 {
    if is_ascii_upper(c) {
        (c as u32 + 32) as u32
    } else {
        c as u32
    }
}

/// Whether two characters are equal once ASCII letters are brought to lower case.
pub open spec fn chars_match_ignore_case(a: char, b: char) -> bool {
    lower_code(a) == lower_code(b)
}

/// Whether two texts are equal up to the case of ASCII letters.
pub open spec fn eq_ignore_case(s: Seq<char>, t: Seq<char>) -> bool {
    s.len() == t.len() && forall|i: int|
        0 <= i < s.len() ==> #[trigger] chars_match_ignore_case(s[i], t[i])
}

/// Two texts that match one text up to case match each other up to case.
pub proof fn lemma_case_blind_match_transfers(s: Seq<char>, t: Seq<char>, u: Seq<char>)
    requires
        eq_ignore_case(s, t),
        eq_ignore_case(s, u),
    ensures
        eq_ignore_case(t, u),
{
    assert forall|i: int| 0 <= i < t.len() implies #[trigger] chars_match_ignore_case(t[i], u[i]) by {
        assert(chars_match_ignore_case(s[i], t[i]));
        assert(chars_match_ignore_case(s[i], u[i]));
    }
}

/// `s` with every underscore replaced by a space, and every other character kept.
pub open spec fn underscores_to_spaces(s: Seq<char>) -> Seq<char> {
    s.map_values(|c: char| if c == '_' { ' ' } else { c })
}

/// Compares two texts, ignoring the case of ASCII letters.
pub fn eq_ignore_ascii_case(s: &str, t: &str) -> (r: bool)
    ensures
        r == eq_ignore_case(s@, t@),
{
    let n = s.unicode_len();
    if n != t.unicode_len() {
        return false;
    }
    let mut i: usize = 0;
    while i < n
        invariant
            n == s@.len(),
            n == t@.len(),
            i <= n,
            forall|j: int| 0 <= j < i ==> #[trigger] chars_match_ignore_case(s@[j], t@[j]),
        decreases n - i,
    {
        let a = s.get_char(i);
        let b = t.get_char(i);
        let la: u32 = if 'A' <= a && a <= 'Z' {
            a as u32 + 32
        } else {
            a as u32
        };
        let lb: u32 = if 'A' <= b && b <= 'Z' {
            b as u32 + 32
        } else {
            b as u32
        };
        let same = la == lb;
        if !same {
            assert(!chars_match_ignore_case(s@[i as int], t@[i as int]));
            return false;
        }
        i = i + 1;
    }
    true
}

/// Copies `s`, writing a space for each underscore.
pub fn replace_underscores(s: &str) -> (r: String)
    ensures
        r@ == underscores_to_spaces(s@),
{
    let n = s.unicode_len();
    let mut r = String::new();
    let mut i: usize = 0;
    proof {
        reveal_strlit(" ");
    }
    while i < n
        invariant
            n == s@.len(),
            i <= n,
            " "@ == seq![' '],
            r@ == underscores_to_spaces(s@.subrange(0, i as int)),
        decreases n - i,
    {
        let c = s.get_char(i);
        if c == '_' {
            r.append(" ");
        } else {
            r.append(s.substring_char(i, i + 1));
        }
        assert(underscores_to_spaces(s@.subrange(0, i + 1)) =~= underscores_to_spaces(
            s@.subrange(0, i as int),
        ).push(if c == '_' { ' ' } else { c }));
        i = i + 1;
    }
    assert(s@.subrange(0, n as int) =~= s@);
    r
}

} // verus!
