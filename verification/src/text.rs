//! Text helpers shared by the splitter, the type normalizer and the inference pass.

use vstd::prelude::*;

verus! {

/// `String::push` of the standard library: the string afterwards is the string
/// before with `c` added at its end. Assumed, not proved.
pub assume_specification[ String::push ](s: &mut String, c: char)
    ensures
        final(s)@ == old(s)@.push(c),
;

/// Whether a character beyond ASCII has the Unicode `White_Space` property, as
/// `char::is_whitespace` decides it.
pub uninterp spec fn unicode_white_space(c: char) -> bool;

/// Whether a character is white space. In ASCII these are the space and the five
/// characters from the tab to the carriage return; beyond ASCII they are the
/// characters with the Unicode `White_Space` property.
pub open spec fn is_white_space(c: char) -> bool {
    if (c as u32) < 0x80 {
        c == ' ' || 0x09 <= (c as u32) <= 0x0d
    } else {
        unicode_white_space(c)
    }
}

/// `char::is_whitespace` of the standard library. Assumed: its answer depends on
/// the character alone; of an ASCII character it is true for the space and for
/// U+0009 to U+000D and for no other, and beyond ASCII `unicode_white_space`
/// names it.
pub assume_specification[ char::is_whitespace ](c: char) -> (b: bool)
    ensures
        b == is_white_space(c),
        (c as u32) >= 0x80 ==> b == unicode_white_space(c),
;

/// The lower-case form of a text, as `str::to_lowercase` computes it.
pub uninterp spec fn lowercase(s: Seq<char>) -> Seq<char>;

/// `str::to_lowercase` of the standard library. Assumed: its result depends on
/// the text alone, and `lowercase` names it.
pub assume_specification[ str::to_lowercase ](s: &str) -> (r: String)
    ensures
        r@ == lowercase(s@),
;

/// A text without its leading white space.
pub open spec fn trim_start(s: Seq<char>) -> Seq<char>
    decreases s.len(),
{
    if s.len() > 0 && is_white_space(s[0]) {
        trim_start(s.drop_first())
    } else {
        s
    }
}

/// A text without its trailing white space.
pub open spec fn trim_end(s: Seq<char>) -> Seq<char>
    decreases s.len(),
{
    if s.len() > 0 && is_white_space(s.last()) {
        trim_end(s.drop_last())
    } else {
        s
    }
}

/// A text without white space at either end.
pub open spec fn trimmed(s: Seq<char>) -> Seq<char> {
    trim_end(trim_start(s))
}

/// The decimal digit for a value below ten.
pub open spec fn digit(d: int) -> char {
    if d == 0 {
        '0'
    } else if d == 1 {
        '1'
    } else if d == 2 {
        '2'
    } else if d == 3 {
        '3'
    } else if d == 4 {
        '4'
    } else if d == 5 {
        '5'
    } else if d == 6 {
        '6'
    } else if d == 7 {
        '7'
    } else if d == 8 {
        '8'
    } else {
        '9'
    }
}

/// A number written in decimal, without sign or leading zeros.
pub open spec fn decimal(n: nat) -> Seq<char>
    decreases n,
{
    if n < 10 {
        seq![digit(n as int)]
    } else {
        decimal(n / 10).push(digit((n % 10) as int))
    }
}

/// The suffix that marks a column as a likely reference to another table.
pub open spec fn id_suffix() -> Seq<char> {
    seq!['_', 'i', 'd']
}

/// Whether a name ends with `_id`.
pub open spec fn has_id_suffix(name: Seq<char>) -> bool {
    name.len() >= 3 && name.skip(name.len() - 3) == id_suffix()
}

/// The characters of a text, in order.
pub fn chars_of(s: &str) -> (r: Vec<char>)
    ensures
        r@ == s@,
{
    let mut out: Vec<char> = Vec::new();
    for c in it: s.chars()
        invariant
            it.seq() == s@,
            out@ == s@.take(it.index()),
    {
        out.push(c);
    }
    out
}

/// The text made of the characters of `v` from `lo` up to `hi`.
pub fn text_of_range(v: &Vec<char>, lo: usize, hi: usize) -> (r: String)
    requires
        lo <= hi <= v@.len(),
    ensures
        r@ == v@.subrange(lo as int, hi as int),
{
    let mut out = String::new();
    let mut i: usize = lo;
    while i < hi
        invariant
            lo <= i <= hi <= v@.len(),
            out@ == v@.subrange(lo as int, i as int),
        decreases hi - i,
    {
        out.push(v[i]);
        i += 1;
    }
    out
}

/// A copy of a list of texts.
pub fn copy_texts(v: &Vec<String>) -> (r: Vec<String>)
    ensures
        r.deep_view() == v.deep_view(),
{
    let mut out: Vec<String> = Vec::new();
    let mut i: usize = 0;
    while i < v.len()
        invariant
            i <= v@.len(),
            out@.len() == i,
            forall|j: int| 0 <= j < i ==> out@[j]@ == v@[j]@,
        decreases v@.len() - i,
    {
        out.push(v[i].clone());
        i += 1;
    }
    assert(out.deep_view() =~= v.deep_view());
    out
}

/// Whether a list of texts holds `s`.
pub fn holds_text(v: &Vec<String>, s: &String) -> (r: bool)
    ensures
        r == v.deep_view().contains(s@),
{
    let mut i: usize = 0;
    while i < v.len()
        invariant
            i <= v@.len(),
            forall|j: int| 0 <= j < i ==> v.deep_view()[j] != s@,
        decreases v@.len() - i,
    {
        if v[i] == *s {
            assert(v.deep_view()[i as int] == s@);
            return true;
        }
        i += 1;
    }
    false
}

proof fn lemma_trim_start_skip(s: Seq<char>, k: int)
    requires
        0 <= k <= s.len(),
        forall|j: int| 0 <= j < k ==> is_white_space(s[j]),
    ensures
        trim_start(s) == trim_start(s.skip(k)),
    decreases k,
{
    if k > 0 {
        assert(s.drop_first().skip(k - 1) =~= s.skip(k));
        lemma_trim_start_skip(s.drop_first(), k - 1);
    } else {
        assert(s.skip(0) =~= s);
    }
}

proof fn lemma_trim_end_take(s: Seq<char>, k: int)
    requires
        0 <= k <= s.len(),
        forall|j: int| k <= j < s.len() ==> is_white_space(s[j]),
    ensures
        trim_end(s) == trim_end(s.take(k)),
    decreases s.len() - k,
{
    if k < s.len() {
        assert(s.drop_last().take(k) =~= s.take(k));
        lemma_trim_end_take(s.drop_last(), k);
    } else {
        assert(s.take(k) =~= s);
    }
}

/// The text of `v` without white space at either end.
pub fn trim_chars(v: &Vec<char>) -> (r: String)
    ensures
        r@ == trimmed(v@),
{
    let n = v.len();
    let mut lo: usize = 0;
    while lo < n && v[lo].is_whitespace()
        invariant
            n == v@.len(),
            lo <= n,
            forall|j: int| 0 <= j < lo ==> is_white_space(v@[j]),
        decreases n - lo,
    {
        lo += 1;
    }
    let ghost rest = v@.skip(lo as int);
    proof {
        lemma_trim_start_skip(v@, lo as int);
        assert(trim_start(rest) == rest);
    }
    let mut hi: usize = n;
    while hi > lo && v[hi - 1].is_whitespace()
        invariant
            n == v@.len(),
            lo <= hi <= n,
            forall|j: int| hi <= j < n ==> is_white_space(v@[j]),
        decreases hi,
    {
        hi -= 1;
    }
    proof {
        lemma_trim_end_take(rest, hi - lo);
        assert(rest.take(hi - lo) =~= v@.subrange(lo as int, hi as int));
        assert(trim_end(v@.subrange(lo as int, hi as int)) == v@.subrange(lo as int, hi as int));
    }
    text_of_range(v, lo, hi)
}

/// Whether `v` holds nothing but white space.
pub fn is_blank(v: &Vec<char>) -> (r: bool)
    ensures
        r == (trimmed(v@).len() == 0),
{
    let n = v.len();
    let mut i: usize = 0;
    while i < n && v[i].is_whitespace()
        invariant
            n == v@.len(),
            i <= n,
            forall|j: int| 0 <= j < i ==> is_white_space(v@[j]),
        decreases n - i,
    {
        i += 1;
    }
    proof {
        lemma_trim_start_skip(v@, i as int);
        let rest = v@.skip(i as int);
        assert(trim_start(rest) == rest);
        if i < n {
            lemma_trim_end_nonempty(rest);
        } else {
            assert(rest.len() == 0);
        }
    }
    i == n
}

proof fn lemma_trim_end_nonempty(s: Seq<char>)
    requires
        s.len() > 0,
        !is_white_space(s[0]),
    ensures
        trim_end(s).len() > 0,
    decreases s.len(),
{
    if is_white_space(s.last()) {
        assert(s.len() > 1);
        lemma_trim_end_nonempty(s.drop_last());
    }
}

fn digit_char(d: u64) -> (c: char)
    requires
        d < 10,
    ensures
        c == digit(d as int),
{
    if d == 0 {
        '0'
    } else if d == 1 {
        '1'
    } else if d == 2 {
        '2'
    } else if d == 3 {
        '3'
    } else if d == 4 {
        '4'
    } else if d == 5 {
        '5'
    } else if d == 6 {
        '6'
    } else if d == 7 {
        '7'
    } else if d == 8 {
        '8'
    } else {
        '9'
    }
}

/// Adds `n`, written in decimal, at the end of `out`.
pub fn push_decimal(out: &mut String, n: u64)
    ensures
        final(out)@ == old(out)@ + decimal(n as nat),
    decreases n,
{
    if n >= 10 {
        push_decimal(out, n / 10);
    }
    out.push(digit_char(n % 10));
    assert(out@ =~= old(out)@ + decimal(n as nat));
}

/// Whether `text` begins with `prefix`.
pub fn has_prefix(text: &Vec<char>, prefix: &Vec<char>) -> (r: bool)
    ensures
        r == prefix@.is_prefix_of(text@),
{
    if prefix.len() > text.len() {
        return false;
    }
    let mut i: usize = 0;
    while i < prefix.len()
        invariant
            i <= prefix@.len() <= text@.len(),
            forall|j: int| 0 <= j < i ==> prefix@[j] == text@[j],
        decreases prefix@.len() - i,
    {
        if prefix[i] != text[i] {
            assert(text@.subrange(0, prefix@.len() as int)[i as int] != prefix@[i as int]);
            return false;
        }
        i += 1;
    }
    assert(prefix@ =~= text@.subrange(0, prefix@.len() as int));
    true
}

/// The part of `name` before a final `_id`, if the name ends so.
pub fn strip_id_suffix(name: &String) -> (r: Option<String>)
    ensures
        match r {
            Some(base) => has_id_suffix(name@) && base@ == name@.take(name@.len() - 3),
            None => !has_id_suffix(name@),
        },
{
    let v = chars_of(name.as_str());
    let n = v.len();
    if n >= 3 && v[n - 3] == '_' && v[n - 2] == 'i' && v[n - 1] == 'd' {
        assert(v@.skip(n - 3) =~= id_suffix());
        Some(text_of_range(&v, 0, n - 3))
    } else {
        proof {
            if n >= 3 {
                let tail = v@.skip(n - 3);
                assert(tail[0] == v@[n - 3] && tail[1] == v@[n - 2] && tail[2] == v@[n - 1]);
            }
        }
        None
    }
}

} // verus!
