use vstd::prelude::*;
use vstd::string::StrSliceExecFns;

verus! {

/// A character that may start a user name: a lowercase ASCII letter.
pub open spec fn is_name_start(c: char) -> bool {
    'a' <= c <= 'z'
}

/// A character that may follow the first one: a lowercase ASCII letter, a
/// digit, `-` or `_`.
pub open spec fn is_name_char(c: char) -> bool {
    ||| 'a' <= c <= 'z'
    ||| '0' <= c <= '9'
    ||| c == '-'
    ||| c == '_'
}

/// A user name proper: a lowercase letter, then letters, digits, `-` and `_`,
/// and at most one `$` at the very end.
pub open spec fn valid_username(s: Seq<char>) -> bool {
    &&& s.len() >= 1
    &&& is_name_start(s[0])
    &&& forall|i: int|
        1 <= i < s.len() ==> is_name_char(#[trigger] s[i]) || (i == s.len() - 1 && s[i] == '$')
}

/// The texts that the "Who are you?" page accepts as a user name, those that
/// match `^[a-z][-a-z0-9_]*\$?$`. As in PCRE, whose `$` also matches before
/// a newline that ends the text, a user name followed by one `\n` matches too.
pub open spec fn matches_username_pattern(s: Seq<char>) -> bool {
    ||| valid_username(s)
    ||| (s.len() >= 1 && s.last() == '\n' && valid_username(s.drop_last()))
}

/// Whether the first `len` characters of `name` form a user name proper.
fn is_username_prefix(name: &str, len: usize) -> (ok: bool)
    requires
        len <= name@.len(),
    ensures
        ok == valid_username(name@.subrange(0, len as int)),
{
    let ghost s = name@.subrange(0, len as int);
    if len == 0 {
        return false;
    }
    let first = name.get_char(0);
    if !('a' <= first && first <= 'z') {
        return false;
    }
    let mut i: usize = 1;
    while i < len
        invariant
            len <= name@.len(),
            s == name@.subrange(0, len as int),
            1 <= i <= len,
            is_name_start(s[0]),
            forall|j: int|
                1 <= j < i ==> is_name_char(#[trigger] s[j]) || (j == len - 1 && s[j] == '$'),
        decreases len - i,
    {
        let c = name.get_char(i);
        assert(c == s[i as int]);
        let body = ('a' <= c && c <= 'z') || ('0' <= c && c <= '9') || c == '-' || c == '_';
        if !body && !(i == len - 1 && c == '$') {
            return false;
        }
        i = i + 1;
    }
    true
}

/// Whether the "Who are you?" page accepts `name` as a user name.
pub fn is_valid_username(name: &str) -> (ok: bool)
    ensures
        ok == matches_username_pattern(name@),
{
    let n = name.unicode_len();
    assert(name@.subrange(0, n as int) =~= name@);
    if is_username_prefix(name, n) {
        return true;
    }
    if n >= 1 && name.get_char(n - 1) == '\n' {
        assert(name@.subrange(0, n - 1) =~= name@.drop_last());
        is_username_prefix(name, n - 1)
    } else {
        false
    }
}

/// A text is accepted exactly when it is a lowercase ASCII letter followed by
/// any number, with no bound on the length, of lowercase ASCII letters,
/// digits, `-` and `_`, and at most one final `$`; or such a text followed by
/// one newline.
pub proof fn lemma_username_pattern(s: Seq<char>)
    ensures
        matches_username_pattern(s) <==> ({
            ||| {
                &&& s.len() >= 1
                &&& 'a' <= s[0] <= 'z'
                &&& forall|i: int|
                    1 <= i < s.len() ==> ('a' <= #[trigger] s[i] <= 'z' || '0' <= s[i] <= '9'
                        || s[i] == '-' || s[i] == '_' || (i == s.len() - 1 && s[i] == '$'))
            }
            ||| {
                &&& s.len() >= 2
                &&& s[s.len() - 1] == '\n'
                &&& 'a' <= s[0] <= 'z'
                &&& forall|i: int|
                    1 <= i < s.len() - 1 ==> ('a' <= #[trigger] s[i] <= 'z' || '0' <= s[i] <= '9'
                        || s[i] == '-' || s[i] == '_' || (i == s.len() - 2 && s[i] == '$'))
            }
        }),
{
    if s.len() >= 1 && s.last() == '\n' {
        let t = s.drop_last();
        assert forall|i: int| 0 <= i < t.len() implies t[i] == s[i] by {}
    }
}

/// An accepted name stays accepted when a lowercase letter, a digit, `-` or `_`
/// is added after it, so no length bound stands in the way; and a `$` may end
/// a name that has none.
pub proof fn lemma_username_grows(s: Seq<char>, c: char)
    requires
        valid_username(s),
        s.last() != '$',
        'a' <= c <= 'z' || '0' <= c <= '9' || c == '-' || c == '_' || c == '$',
    ensures
        valid_username(s.push(c)),
        matches_username_pattern(s.push(c)),
{
    assert forall|i: int| 1 <= i < s.push(c).len() implies is_name_char(#[trigger] s.push(c)[i])
        || (i == s.push(c).len() - 1 && s.push(c)[i] == '$') by {
        if i < s.len() {
            assert(s.push(c)[i] == s[i]);
            if s[i] == '$' {
                assert(i == s.len() - 1);
            }
        }
    }
}

} // verus!
