//! Character-level helpers shared by the parser and the providers.

use vstd::prelude::*;
use vstd::string::*;

verus! {

/// Whether `c` has the Unicode property `White_Space`.
pub open spec fn is_whitespace(c: char) -> bool {
    let n = c as u32;
    ||| 0x09 <= n <= 0x0D
    ||| n == 0x20
    ||| n == 0x85
    ||| n == 0xA0
    ||| n == 0x1680
    ||| 0x2000 <= n <= 0x200A
    ||| n == 0x2028
    ||| n == 0x2029
    ||| n == 0x202F
    ||| n == 0x205F
    ||| n == 0x3000
}

/// Whether some character of `s` is whitespace.
pub open spec fn has_whitespace(s: Seq<char>) -> bool {
    exists|i: int| 0 <= i < s.len() && is_whitespace(#[trigger] s[i])
}

/// Whether every character of `s` is whitespace. The empty text is blank.
pub open spec fn is_blank(s: Seq<char>) -> bool {
    forall|i: int| 0 <= i < s.len() ==> is_whitespace(#[trigger] s[i])
}

/// Length of the longest prefix of `s` that holds no whitespace.
pub open spec fn token_len(s: Seq<char>) -> nat
    decreases s.len(),
{
    if s.len() == 0 || is_whitespace(s[0]) {
        0
    } else {
        1 + token_len(s.drop_first())
    }
}

/// Length of the longest prefix of `s` that is made of whitespace only.
pub open spec fn blank_len(s: Seq<char>) -> nat
    decreases s.len(),
{
    if s.len() == 0 || !is_whitespace(s[0]) {
        0
    } else {
        1 + blank_len(s.drop_first())
    }
}

/// `token_len(s)` is the one position that ends a whitespace-free prefix at
/// the first whitespace character or at the end of `s`.
pub proof fn lemma_token_len(s: Seq<char>)
    ensures
        token_len(s) <= s.len(),
        forall|i: int| 0 <= i < token_len(s) ==> !is_whitespace(#[trigger] s[i]),
        token_len(s) < s.len() ==> is_whitespace(s[token_len(s) as int]),
        token_len(s) == s.len() <==> !has_whitespace(s),
    decreases s.len(),
{
    if s.len() == 0 || is_whitespace(s[0]) {
        if s.len() > 0 {
            assert(is_whitespace(s[0]));
        }
    } else {
        let t = s.drop_first();
        lemma_token_len(t);
        assert forall|i: int| 0 <= i < token_len(s) implies !is_whitespace(#[trigger] s[i]) by {
            if i > 0 {
                assert(s[i] == t[i - 1]);
            }
        }
        if token_len(s) < s.len() {
            assert(s[token_len(s) as int] == t[token_len(t) as int]);
        }
        if has_whitespace(s) {
            let i = choose|i: int| 0 <= i < s.len() && is_whitespace(#[trigger] s[i]);
            assert(is_whitespace(t[i - 1]));
        }
        if has_whitespace(t) {
            let i = choose|i: int| 0 <= i < t.len() && is_whitespace(#[trigger] t[i]);
            assert(is_whitespace(s[i + 1]));
        }
    }
}

/// `blank_len(s)` is the one position that ends a prefix of whitespace at the
/// first other character or at the end of `s`.
pub proof fn lemma_blank_len(s: Seq<char>)
    ensures
        blank_len(s) <= s.len(),
        forall|i: int| 0 <= i < blank_len(s) ==> is_whitespace(#[trigger] s[i]),
        blank_len(s) < s.len() ==> !is_whitespace(s[blank_len(s) as int]),
        blank_len(s) == s.len() <==> is_blank(s),
    decreases s.len(),
{
    if s.len() == 0 || !is_whitespace(s[0]) {
        if s.len() > 0 {
            assert(!is_whitespace(s[0]));
        }
    } else {
        let t = s.drop_first();
        lemma_blank_len(t);
        assert forall|i: int| 0 <= i < blank_len(s) implies is_whitespace(#[trigger] s[i]) by {
            if i > 0 {
                assert(s[i] == t[i - 1]);
            }
        }
        if blank_len(s) < s.len() {
            assert(s[blank_len(s) as int] == t[blank_len(t) as int]);
        }
        if is_blank(s) {
            assert forall|i: int| 0 <= i < t.len() implies is_whitespace(#[trigger] t[i]) by {
                assert(t[i] == s[i + 1]);
            }
        }
        if is_blank(t) {
            assert forall|i: int| 0 <= i < s.len() implies is_whitespace(#[trigger] s[i]) by {
                if i > 0 {
                    assert(s[i] == t[i - 1]);
                }
            }
        }
    }
}

/// Tells whether `c` is a whitespace character.
pub fn char_is_whitespace(c: char) -> (b: bool)
    ensures
        b == is_whitespace(c),
{
    let n: u32 = c as u32;
    (0x09 <= n && n <= 0x0D) || n == 0x20 || n == 0x85 || n == 0xA0 || n == 0x1680 || (0x2000 <= n
        && n <= 0x200A) || n == 0x2028 || n == 0x2029 || n == 0x202F || n == 0x205F || n == 0x3000
}

/// The characters of `s`, in order.
pub fn chars_of(s: &str) -> (v: Vec<char>)
    ensures
        v@ == s@,
{
    let mut v: Vec<char> = Vec::new();
    for c in it: s.chars()
        invariant
            it.seq() == s@,
            v@ == it.seq().take(it.index() as int),
    {
        v.push(c);
    }
    v
}

/// The position at or after `from` where the whitespace-free run that starts
/// at `from` ends.
pub fn scan_token(v: &Vec<char>, from: usize) -> (end: usize)
    requires
        from <= v.len(),
    ensures
        end == from + token_len(v@.skip(from as int)),
        from <= end <= v.len(),
{
    let mut i: usize = from;
    while i < v.len() && !char_is_whitespace(v[i])
        invariant
            from <= i <= v.len(),
            token_len(v@.skip(from as int)) == (i - from) + token_len(v@.skip(i as int)),
        decreases v.len() - i,
    {
        assert(v@.skip(i as int).drop_first() =~= v@.skip(i + 1));
        i = i + 1;
    }
    i
}

/// The position at or after `from` where the run of whitespace that starts at
/// `from` ends.
pub fn scan_blank(v: &Vec<char>, from: usize) -> (end: usize)
    requires
        from <= v.len(),
    ensures
        end == from + blank_len(v@.skip(from as int)),
        from <= end <= v.len(),
{
    let mut i: usize = from;
    while i < v.len() && char_is_whitespace(v[i])
        invariant
            from <= i <= v.len(),
            blank_len(v@.skip(from as int)) == (i - from) + blank_len(v@.skip(i as int)),
        decreases v.len() - i,
    {
        assert(v@.skip(i as int).drop_first() =~= v@.skip(i + 1));
        i = i + 1;
    }
    i
}

/// Tells whether two texts hold the same characters.
pub fn same_text(a: &str, b: &str) -> (r: bool)
    ensures
        r == (a@ == b@),
{
    let x = chars_of(a);
    let y = chars_of(b);
    if x.len() != y.len() {
        return false;
    }
    let mut i: usize = 0;
    while i < x.len()
        invariant
            i <= x.len(),
            x.len() == y.len(),
            x@ == a@,
            y@ == b@,
            forall|j: int| 0 <= j < i ==> x@[j] == y@[j],
        decreases x.len() - i,
    {
        if x[i] != y[i] {
            return false;
        }
        i = i + 1;
    }
    assert(x@ =~= y@);
    true
}

/// Tells whether `s` holds nothing but whitespace.
pub fn text_is_blank(s: &str) -> (b: bool)
    ensures
        b == is_blank(s@),
{
    let v = chars_of(s);
    let end = scan_blank(&v, 0);
    proof {
        assert(v@.skip(0) =~= v@);
        lemma_blank_len(v@);
    }
    end == v.len()
}

/// `template` with every `%s` replaced by `text`, scanning from the left.
pub open spec fn replace_placeholder(template: Seq<char>, text: Seq<char>) -> Seq<char>
    decreases template.len(),
{
    if template.len() < 2 {
        template
    } else if template[0] == '%' && template[1] == 's' {
        text + replace_placeholder(template.skip(2), text)
    } else {
        seq![template[0]] + replace_placeholder(template.drop_first(), text)
    }
}

/// Puts `text` in the place of every `%s` of `template`.
pub fn fill_placeholder(template: &str, text: &str) -> (out: String)
    ensures
        out@ == replace_placeholder(template@, text@),
{
    let chars = chars_of(template);
    let n = chars.len();
    let mut out = String::new();
    let mut start: usize = 0;
    let mut i: usize = 0;
    proof {
        assert(template@.skip(0) =~= template@);
        assert(out@ + template@.subrange(0, 0) + replace_placeholder(template@, text@)
            =~= replace_placeholder(template@, text@));
    }
    while i < n
        invariant
            start <= i <= n,
            n == chars.len(),
            chars@ == template@,
            replace_placeholder(template@, text@) == out@ + template@.subrange(
                start as int,
                i as int,
            ) + replace_placeholder(template@.skip(i as int), text@),
        decreases n - i,
    {
        let ghost rest = template@.skip(i as int);
        let ghost done = out@;
        if i + 1 < n && chars[i] == '%' && chars[i + 1] == 's' {
            out.append(template.substring_char(start, i));
            out.append(text);
            proof {
                assert(rest.skip(2) =~= template@.skip(i + 2));
                assert(template@.subrange(i + 2, i + 2) =~= Seq::<char>::empty());
                assert(done + template@.subrange(start as int, i as int) + (text@
                    + replace_placeholder(rest.skip(2), text@)) =~= out@ + template@.subrange(
                    i + 2,
                    i + 2,
                ) + replace_placeholder(template@.skip(i + 2), text@));
            }
            i = i + 2;
            start = i;
        } else {
            proof {
                assert(rest.drop_first() =~= template@.skip(i + 1));
                assert(template@.subrange(start as int, i as int) + seq![rest[0]]
                    =~= template@.subrange(start as int, i + 1));
                if rest.len() < 2 {
                    assert(rest =~= seq![rest[0]]);
                    assert(replace_placeholder(rest.drop_first(), text@) =~= Seq::<char>::empty());
                }
                assert(replace_placeholder(rest, text@) =~= seq![rest[0]] + replace_placeholder(
                    template@.skip(i + 1),
                    text@,
                ));
                assert(done + template@.subrange(start as int, i as int) + (seq![rest[0]]
                    + replace_placeholder(template@.skip(i + 1), text@)) =~= done
                    + template@.subrange(start as int, i + 1) + replace_placeholder(
                    template@.skip(i + 1),
                    text@,
                ));
            }
            i = i + 1;
        }
    }
    out.append(template.substring_char(start, n));
    proof {
        assert(template@.skip(n as int) =~= Seq::<char>::empty());
        assert(out@ =~= replace_placeholder(template@, text@));
    }
    out
}

/// Position of the first space of `s`, or its length if it has none.
pub open spec fn first_space(s: Seq<char>) -> int
    decreases s.len(),
{
    if s.len() == 0 || s[0] == ' ' {
        0
    } else {
        1 + first_space(s.drop_first())
    }
}

/// Position of the last space of `s`, or -1 if it has none.
pub open spec fn last_space(s: Seq<char>) -> int
    decreases s.len(),
{
    if s.len() == 0 {
        -1
    } else if s.last() == ' ' {
        s.len() - 1
    } else {
        last_space(s.drop_last())
    }
}

/// `first_space(s)` is a position of `s` or its length, no space stands
/// before it, and a space stands at it unless it is the length.
pub proof fn lemma_first_space(s: Seq<char>)
    ensures
        0 <= first_space(s) <= s.len(),
        forall|i: int| 0 <= i < first_space(s) ==> #[trigger] s[i] != ' ',
        first_space(s) < s.len() ==> s[first_space(s)] == ' ',
    decreases s.len(),
{
    if s.len() == 0 || s[0] == ' ' {
    } else {
        let t = s.drop_first();
        lemma_first_space(t);
        assert forall|i: int| 0 <= i < first_space(s) implies #[trigger] s[i] != ' ' by {
            if i > 0 {
                assert(s[i] == t[i - 1]);
            }
        }
        if first_space(s) < s.len() {
            assert(s[first_space(s)] == t[first_space(t)]);
        }
    }
}

/// `last_space(s)` is a position of `s` or -1, no space stands behind it,
/// and a space stands at it unless it is -1.
pub proof fn lemma_last_space(s: Seq<char>)
    ensures
        -1 <= last_space(s) < s.len(),
        forall|i: int| last_space(s) < i < s.len() ==> #[trigger] s[i] != ' ',
        0 <= last_space(s) ==> s[last_space(s)] == ' ',
    decreases s.len(),
{
    if s.len() == 0 || s.last() == ' ' {
    } else {
        let t = s.drop_last();
        lemma_last_space(t);
        assert forall|i: int| last_space(s) < i < s.len() implies #[trigger] s[i] != ' ' by {
            if i < s.len() - 1 {
                assert(s[i] == t[i]);
            }
        }
        if 0 <= last_space(s) {
            assert(s[last_space(s)] == t[last_space(t)]);
        }
    }
}

/// Finds the first space of `v`.
pub fn find_first_space(v: &Vec<char>) -> (at: usize)
    ensures
        at == first_space(v@),
        at <= v.len(),
{
    let mut i: usize = 0;
    assert(v@.skip(0) =~= v@);
    while i < v.len() && v[i] != ' '
        invariant
            i <= v.len(),
            first_space(v@) == i + first_space(v@.skip(i as int)),
        decreases v.len() - i,
    {
        assert(v@.skip(i as int).drop_first() =~= v@.skip(i + 1));
        i = i + 1;
    }
    i
}

/// Finds the last space of `v`.
pub fn find_last_space(v: &Vec<char>) -> (at: Option<usize>)
    ensures
        match at {
            Some(i) => i == last_space(v@),
            None => last_space(v@) == -1,
        },
{
    let mut i: usize = v.len();
    assert(v@.take(i as int) =~= v@);
    while i > 0
        invariant
            i <= v.len(),
            last_space(v@) == last_space(v@.take(i as int)),
        decreases i,
    {
        assert(v@.take(i as int).drop_last() =~= v@.take(i - 1));
        if v[i - 1] == ' ' {
            return Some(i - 1);
        }
        i = i - 1;
    }
    None
}

/// A prefix without whitespace is part of the first token.
pub proof fn lemma_token_len_prefix(head: Seq<char>, tail: Seq<char>)
    requires
        !has_whitespace(head),
    ensures
        token_len(head + tail) == head.len() + token_len(tail),
    decreases head.len(),
{
    if head.len() == 0 {
        assert(head + tail =~= tail);
    } else {
        let rest = head.drop_first();
        assert(!is_whitespace(head[0]));
        assert((head + tail)[0] == head[0]);
        assert((head + tail).drop_first() =~= rest + tail);
        if has_whitespace(rest) {
            let i = choose|i: int| 0 <= i < rest.len() && is_whitespace(#[trigger] rest[i]);
            assert(is_whitespace(head[i + 1]));
        }
        lemma_token_len_prefix(rest, tail);
    }
}

} // verus!
