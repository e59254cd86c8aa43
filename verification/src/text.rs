//! Verified text helpers for track metadata: deriving a title from a file
//! path, and reading the decimal number a length tag carries.

use vstd::prelude::*;
use vstd::string::*;

verus! {

/// The characters after the last `/` of a path; the whole path when it has
/// none. A path ending in `/` has an empty last component.
pub open spec fn after_last_slash(p: Seq<char>) -> Seq<char>
    decreases p.len(),
{
    if p.len() == 0 {
        p
    } else if p.last() == '/' {
        Seq::<char>::empty()
    } else {
        after_last_slash(p.drop_last()).push(p.last())
    }
}

/// The name with its extension cut off: everything before the last `.`,
/// unless that `.` opens the name — a hidden file's leading dot marks no
/// extension.
pub open spec fn strip_extension(name: Seq<char>) -> Seq<char>
    decreases name.len(),
{
    if name.len() <= 1 {
        name
    } else if name.last() == '.' {
        name.drop_last()
    } else {
        let shorter = strip_extension(name.drop_last());
        if shorter == name.drop_last() {
            name
        } else {
            shorter
        }
    }
}

/// The file stem of a path: its last component without the extension.
pub open spec fn stem_of(p: Seq<char>) -> Seq<char> {
    strip_extension(after_last_slash(p))
}

/// The title shown for a file that carries no usable title tag: the file
/// stem of its path, or a placeholder when that stem is empty.
pub open spec fn default_title(p: Seq<char>) -> Seq<char> {
    if stem_of(p).len() == 0 {
        "UNKNOWN"@
    } else {
        stem_of(p)
    }
}

/// A name without a `.` past its first character keeps its extension as it
/// is: there is nothing to cut.
proof fn lemma_strip_extension_no_dot(name: Seq<char>)
    requires
        forall|k: int| 1 <= k < name.len() ==> name[k] != '.',
    ensures
        strip_extension(name) == name,
    decreases name.len(),
{
    if name.len() > 1 {
        lemma_strip_extension_no_dot(name.drop_last());
    }
}

/// A name whose last `.` past the first character stands at `d` is cut
/// exactly there.
proof fn lemma_strip_extension_last_dot(name: Seq<char>, d: int)
    requires
        1 <= d < name.len(),
        name[d] == '.',
        forall|k: int| d < k < name.len() ==> name[k] != '.',
    ensures
        strip_extension(name) == name.take(d),
    decreases name.len(),
{
    if d == name.len() - 1 {
        assert(name.drop_last() =~= name.take(d));
    } else {
        lemma_strip_extension_last_dot(name.drop_last(), d);
        assert(name.drop_last().take(d) =~= name.take(d));
    }
}

/// The title the library shows for an untagged file: the file stem of its
/// path.
pub fn title_from_path(path: &str) -> (r: String)
    ensures
        r@ == stem_of(path@),
{
    let n = path.unicode_len();
    let mut start: usize = 0;
    let mut i: usize = 0;
    while i < n
        invariant
            n == path@.len(),
            0 <= start <= i <= n,
            after_last_slash(path@.take(i as int)) =~= path@.subrange(start as int, i as int),
        decreases n - i,
    {
        let c = path.get_char(i);
        proof {
            assert(path@.take(i + 1 as int).drop_last() =~= path@.take(i as int));
            assert(path@.take(i + 1 as int).last() == path@[i as int]);
        }
        if c == '/' {
            start = i + 1;
        }
        proof {
            assert(after_last_slash(path@.take(i + 1 as int)) =~= path@.subrange(
                start as int,
                i + 1 as int,
            ));
        }
        i = i + 1;
    }
    proof {
        assert(path@.take(n as int) =~= path@);
    }
    // Within the last component, find the last '.' that does not open it.
    let mut dot: usize = n;
    let mut j: usize = start;
    while j < n
        invariant
            n == path@.len(),
            start <= j <= n,
            dot == n || (start + 1 <= dot < j && path@[dot as int] == '.'),
            forall|k: int|
                (if dot == n {
                    start + 1
                } else {
                    dot + 1
                }) <= k < j ==> path@[k] != '.',
        decreases n - j,
    {
        let c = path.get_char(j);
        if c == '.' && j > start {
            dot = j;
        }
        j = j + 1;
    }
    proof {
        let name = path@.subrange(start as int, n as int);
        if dot == n {
            assert(forall|k: int| 1 <= k < name.len() ==> name[k] != '.');
            lemma_strip_extension_no_dot(name);
        } else {
            assert(name[dot - start] == '.');
            assert(forall|k: int| dot - start < k < name.len() ==> name[k] != '.');
            lemma_strip_extension_last_dot(name, dot - start);
            assert(name.take(dot - start) =~= path@.subrange(start as int, dot as int));
        }
    }
    path.substring_char(start, dot).to_owned()
}

/// `pre` opens `s`.
pub open spec fn is_prefix(pre: Seq<char>, s: Seq<char>) -> bool {
    pre.len() <= s.len() && s.take(pre.len() as int) == pre
}

/// Whether the string starts with the prefix.
pub fn starts_with(s: &str, pre: &str) -> (r: bool)
    ensures
        r == is_prefix(pre@, s@),
{
    let np = pre.unicode_len();
    let ns = s.unicode_len();
    if np > ns {
        return false;
    }
    let mut i: usize = 0;
    while i < np
        invariant
            np == pre@.len(),
            ns == s@.len(),
            np <= ns,
            0 <= i <= np,
            forall|k: int| 0 <= k < i ==> s@[k] == pre@[k],
        decreases np - i,
    {
        if s.get_char(i) != pre.get_char(i) {
            proof {
                assert(s@.take(np as int)[i as int] == s@[i as int]);
            }
            return false;
        }
        i = i + 1;
    }
    proof {
        assert(s@.take(np as int) =~= pre@);
    }
    true
}

/// A decimal digit.
pub open spec fn is_digit(c: char) -> bool {
    48 <= c as u32 <= 57
}

/// Its value.
pub open spec fn digit_val(c: char) -> int {
    c as u32 - 48
}

/// Every character is a decimal digit.
pub open spec fn all_digits(s: Seq<char>) -> bool {
    forall|i: int| 0 <= i < s.len() ==> is_digit(#[trigger] s[i])
}

/// The number a digit string denotes, most significant digit first.
pub open spec fn digits_val(s: Seq<char>) -> int
    decreases s.len(),
{
    if s.len() == 0 {
        0
    } else {
        digits_val(s.drop_last()) * 10 + digit_val(s.last())
    }
}

/// What parsing an unsigned decimal returns: the denoted value for an
/// optional `+` followed by one or more digits, when that value fits in
/// 64 bits; nothing otherwise.
pub open spec fn parse_u64_spec(s: Seq<char>) -> Option<u64> {
    let body = if s.len() > 0 && s[0] == '+' {
        s.skip(1)
    } else {
        s
    };
    if body.len() > 0 && all_digits(body) && digits_val(body) <= u64::MAX {
        Some(digits_val(body) as u64)
    } else {
        None
    }
}

/// A digit string denotes a non-negative number.
proof fn lemma_digits_val_nonneg(s: Seq<char>)
    requires
        all_digits(s),
    ensures
        digits_val(s) >= 0,
    decreases s.len(),
{
    if s.len() > 0 {
        assert(all_digits(s.drop_last()));
        lemma_digits_val_nonneg(s.drop_last());
    }
}

/// Extending a digit string never shrinks its value: every prefix denotes
/// at most what the whole string does.
proof fn lemma_digits_val_prefix_le(s: Seq<char>, k: int)
    requires
        all_digits(s),
        0 <= k <= s.len(),
    ensures
        digits_val(s.take(k)) <= digits_val(s),
    decreases s.len() - k,
{
    if k < s.len() {
        lemma_digits_val_prefix_le(s, k + 1);
        assert(s.take(k + 1).drop_last() =~= s.take(k));
        assert(s.take(k + 1).last() == s[k]);
        lemma_digits_val_nonneg(s.take(k));
    } else {
        assert(s.take(k) =~= s);
    }
}

/// Parse an unsigned decimal as the length tag carries it: an optional
/// leading `+`, then one or more digits; `None` on any other shape or when
/// the value overflows 64 bits.
pub fn parse_u64(s: &str) -> (r: Option<u64>)
    ensures
        r == parse_u64_spec(s@),
{
    let n = s.unicode_len();
    let mut i: usize = 0;
    if n > 0 && s.get_char(0) == '+' {
        i = 1;
    }
    let ghost off: int = i as int;
    let ghost body = s@.skip(off);
    proof {
        assert(s@.skip(0) =~= s@);
    }
    if i == n {
        return None;
    }
    let mut acc: u64 = 0;
    while i < n
        invariant
            n == s@.len(),
            0 <= off <= i <= n,
            off < n,
            body == s@.skip(off),
            off == (if s@.len() > 0 && s@[0] == '+' {
                1int
            } else {
                0int
            }),
            all_digits(body.take(i - off)),
            acc == digits_val(body.take(i - off)),
        decreases n - i,
    {
        let c = s.get_char(i);
        let u = c as u32;
        proof {
            assert(body.take(i - off + 1).drop_last() =~= body.take(i - off));
            assert(body.take(i - off + 1).last() == s@[i as int]);
        }
        if u < 48 || u > 57 {
            proof {
                assert(s@.skip(0) =~= s@);
                assert(body[i - off] == s@[i as int]);
                assert(!all_digits(body));
            }
            return None;
        }
        let d = (u - 48) as u64;
        if acc > (u64::MAX - d) / 10 {
            // The digits seen so far already denote more than fits.
            proof {
                assert(acc * 10 + d > u64::MAX) by (nonlinear_arith)
                    requires
                        acc > (u64::MAX - d) / 10,
                        0 <= d <= 9,
                        acc >= 0,
                ;
                if all_digits(body) {
                    assert(digits_val(body.take(i - off + 1)) == acc * 10 + d);
                    lemma_digits_val_prefix_le(body, i - off + 1);
                    assert(digits_val(body) > u64::MAX);
                }
                assert(s@.skip(0) =~= s@);
            }
            return None;
        }
        proof {
            assert(acc * 10 + d <= u64::MAX) by (nonlinear_arith)
                requires
                    acc <= (u64::MAX - d) / 10,
                    0 <= d <= 9,
                    acc >= 0,
            ;
        }
        acc = acc * 10 + d;
        i = i + 1;
    }
    proof {
        assert(body.take(n - off) =~= body);
    }
    Some(acc)
}

} // verus!
