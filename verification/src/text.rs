//! Character-sequence utilities shared by the comment parser and the
//! renderers: whitespace trimming, line splitting, prefix tests,
//! paragraph splitting and quote rewriting.

use vstd::prelude::*;

verus! {

/// The whitespace characters recognised when trimming, matching the
/// Unicode `White_Space` property.
pub open spec fn is_ws_char(c: char) -> bool {
    c == ' ' || c == '\t' || c == '\n' || c == '\u{b}' || c == '\u{c}' || c == '\r'
        || c == '\u{85}' || c == '\u{a0}' || c == '\u{1680}'
        || c == '\u{2000}' || c == '\u{2001}' || c == '\u{2002}' || c == '\u{2003}'
        || c == '\u{2004}' || c == '\u{2005}' || c == '\u{2006}' || c == '\u{2007}'
        || c == '\u{2008}' || c == '\u{2009}' || c == '\u{200a}'
        || c == '\u{2028}' || c == '\u{2029}' || c == '\u{202f}' || c == '\u{205f}'
        || c == '\u{3000}'
}

pub fn is_ws(c: char) -> (r: bool)
    ensures
        r == is_ws_char(c),
{
    c == ' ' || c == '\t' || c == '\n' || c == '\u{b}' || c == '\u{c}' || c == '\r'
        || c == '\u{85}' || c == '\u{a0}' || c == '\u{1680}'
        || c == '\u{2000}' || c == '\u{2001}' || c == '\u{2002}' || c == '\u{2003}'
        || c == '\u{2004}' || c == '\u{2005}' || c == '\u{2006}' || c == '\u{2007}'
        || c == '\u{2008}' || c == '\u{2009}' || c == '\u{200a}'
        || c == '\u{2028}' || c == '\u{2029}' || c == '\u{202f}' || c == '\u{205f}'
        || c == '\u{3000}'
}

/// `s` drops its leading whitespace characters.
pub open spec fn trim_front(s: Seq<char>) -> Seq<char>
    decreases s.len(),
{
    if s.len() > 0 && is_ws_char(s[0]) {
        trim_front(s.skip(1))
    } else {
        s
    }
}

/// `s` drops its trailing whitespace characters.
pub open spec fn trim_back(s: Seq<char>) -> Seq<char>
    decreases s.len(),
{
    if s.len() > 0 && is_ws_char(s.last()) {
        trim_back(s.drop_last())
    } else {
        s
    }
}

/// `s` with leading and trailing whitespace removed.
pub open spec fn trim_seq(s: Seq<char>) -> Seq<char> {
    trim_back(trim_front(s))
}

fn trim_front_from(v: &Vec<char>, i: usize) -> (r: Vec<char>)
    requires
        i <= v.len(),
    ensures
        r@ == trim_front(v@.skip(i as int)),
    decreases v.len() - i,
{
    if i == v.len() {
        let r: Vec<char> = Vec::new();
        assert(v@.skip(i as int) =~= Seq::<char>::empty());
        r
    } else if is_ws(v[i]) {
        let r = trim_front_from(v, i + 1);
        assert(v@.skip(i as int).skip(1) =~= v@.skip(i + 1));
        r
    } else {
        let mut r: Vec<char> = Vec::new();
        let mut j: usize = i;
        while j < v.len()
            invariant
                i <= j <= v.len(),
                r@ == v@.subrange(i as int, j as int),
            decreases v.len() - j,
        {
            r.push(v[j]);
            j = j + 1;
        }
        assert(r@ =~= v@.skip(i as int));
        r
    }
}

fn trim_back_in_place(v: &mut Vec<char>)
    ensures
        final(v)@ == trim_back(old(v)@),
{
    while v.len() > 0 && is_ws(v[v.len() - 1])
        invariant
            trim_back(v@) == trim_back(old(v)@),
        decreases v.len(),
    {
        v.pop();
    }
}

/// Remove leading and trailing whitespace characters.
pub fn trim_chars(v: &Vec<char>) -> (r: Vec<char>)
    ensures
        r@ == trim_seq(v@),
{
    let mut r = trim_front_from(v, 0);
    assert(v@.skip(0) =~= v@);
    trim_back_in_place(&mut r);
    r
}

/// `p` is a prefix of `s`.
pub open spec fn begins_with(s: Seq<char>, p: Seq<char>) -> bool {
    p.len() <= s.len() && forall|i: int| 0 <= i < p.len() ==> s[i] == p[i]
}

pub fn begins_with_chars(s: &Vec<char>, p: &Vec<char>) -> (r: bool)
    ensures
        r == begins_with(s@, p@),
{
    if p.len() > s.len() {
        return false;
    }
    let mut i: usize = 0;
    while i < p.len()
        invariant
            p.len() <= s.len(),
            i <= p.len(),
            forall|j: int| 0 <= j < i ==> s@[j] == p@[j],
        decreases p.len() - i,
    {
        if s[i] != p[i] {
            return false;
        }
        i = i + 1;
    }
    true
}

/// Copy the characters of `v` between `from` and `to`.
pub fn sub_chars(v: &Vec<char>, from: usize, to: usize) -> (r: Vec<char>)
    requires
        from <= to <= v.len(),
    ensures
        r@ == v@.subrange(from as int, to as int),
{
    let mut r: Vec<char> = Vec::new();
    let mut i: usize = from;
    while i < to
        invariant
            from <= i <= to <= v.len(),
            r@ == v@.subrange(from as int, i as int),
        decreases to - i,
    {
        r.push(v[i]);
        i = i + 1;
    }
    r
}

/// Append the characters of `src` to `dst`.
pub fn append_chars(dst: &mut Vec<char>, src: &Vec<char>)
    ensures
        final(dst)@ == old(dst)@ + src@,
{
    let mut i: usize = 0;
    while i < src.len()
        invariant
            i <= src.len(),
            dst@ == old(dst)@ + src@.take(i as int),
        decreases src.len() - i,
    {
        dst.push(src[i]);
        i = i + 1;
        assert(old(dst)@ + src@.take(i - 1) + seq![src@[i - 1]] =~= old(dst)@ + src@.take(
            i as int,
        ));
    }
    assert(old(dst)@ + src@.take(src@.len() as int) =~= old(dst)@ + src@);
}

/// Append the characters of the string slice `s` to `dst`.
pub fn append_str(dst: &mut Vec<char>, s: &str)
    ensures
        final(dst)@ == old(dst)@ + s@,
{
    let n = s.unicode_len();
    let mut i: usize = 0;
    while i < n
        invariant
            i <= n,
            n == s@.len(),
            dst@ == old(dst)@ + s@.take(i as int),
        decreases n - i,
    {
        dst.push(s.get_char(i));
        i = i + 1;
        assert(old(dst)@ + s@.take(i - 1) + seq![s@[i - 1]] =~= old(dst)@ + s@.take(i as int));
    }
    assert(old(dst)@ + s@.take(s@.len() as int) =~= old(dst)@ + s@);
}

/// The characters of the string slice `s`, as a vector.
pub fn chars_of(s: &str) -> (r: Vec<char>)
    ensures
        r@ == s@,
{
    let mut r: Vec<char> = Vec::new();
    append_str(&mut r, s);
    r
}

/// Relies on `String`'s `FromIterator<char>` implementation: collecting
/// an iterator of characters yields a string holding exactly those
/// characters in order.
#[verifier::external_body]
pub fn string_from_chars(v: &Vec<char>) -> (s: String)
    ensures
        s@ == v@,
{
    v.iter().collect()
}

/// A finished line drops one trailing carriage return, so that a
/// `"\r\n"` terminator leaves the line bare.
pub open spec fn strip_cr(l: Seq<char>) -> Seq<char> {
    if l.len() > 0 && l.last() == '\r' {
        l.drop_last()
    } else {
        l
    }
}

/// Split into lines, terminator by terminator: a `'\n'` (optionally
/// preceded by `'\r'`) ends a line, and a final line without its own
/// terminator still counts. `cur` holds the characters of the line
/// begun so far.
pub open spec fn lines_rec(s: Seq<char>, cur: Seq<char>) -> Seq<Seq<char>>
    decreases s.len(),
{
    if s.len() == 0 {
        if cur.len() == 0 {
            Seq::empty()
        } else {
            seq![cur]
        }
    } else if s[0] == '\n' {
        seq![strip_cr(cur)] + lines_rec(s.skip(1), Seq::empty())
    } else {
        lines_rec(s.skip(1), cur.push(s[0]))
    }
}

/// The lines of `s`, as `str::lines` yields them.
pub open spec fn lines_seq(s: Seq<char>) -> Seq<Seq<char>> {
    lines_rec(s, Seq::empty())
}

/// The views of a vector of character vectors.
pub open spec fn seqs_view(s: Seq<Vec<char>>) -> Seq<Seq<char>> {
    s.map_values(|v: Vec<char>| v@)
}

/// Split `v` into its lines.
pub fn lines_chars(v: &Vec<char>) -> (r: Vec<Vec<char>>)
    ensures
        seqs_view(r@) == lines_seq(v@),
{
    let mut out: Vec<Vec<char>> = Vec::new();
    let mut cur: Vec<char> = Vec::new();
    let mut i: usize = 0;
    assert(v@.skip(0) =~= v@);
    assert(seqs_view(out@) + lines_rec(v@, cur@) =~= lines_rec(v@, cur@));
    while i < v.len()
        invariant
            i <= v.len(),
            lines_seq(v@) == seqs_view(out@) + lines_rec(v@.skip(i as int), cur@),
        decreases v.len() - i,
    {
        let ghost pre_out = out@;
        let ghost pre_cur = cur@;
        let c = v[i];
        if c == '\n' {
            if cur.len() > 0 && cur[cur.len() - 1] == '\r' {
                cur.pop();
            }
            assert(cur@ == strip_cr(pre_cur));
            out.push(cur);
            cur = Vec::new();
            assert(seqs_view(out@) =~= seqs_view(pre_out) + seq![strip_cr(pre_cur)]);
            assert(v@.skip(i as int).skip(1) =~= v@.skip(i + 1));
            assert(seqs_view(out@) + lines_rec(v@.skip(i + 1), cur@) =~= seqs_view(pre_out)
                + lines_rec(v@.skip(i as int), pre_cur));
        } else {
            cur.push(c);
            assert(v@.skip(i as int).skip(1) =~= v@.skip(i + 1));
            assert(lines_rec(v@.skip(i + 1), cur@) == lines_rec(v@.skip(i as int), pre_cur));
        }
        i = i + 1;
    }
    assert(v@.skip(v@.len() as int) =~= Seq::<char>::empty());
    if cur.len() > 0 {
        out.push(cur);
        assert(seqs_view(out@) =~= seqs_view(out@.drop_last()) + seq![cur@]);
    }
    out
}

/// Split on the first occurrences of a blank line (two consecutive
/// `'\n'` characters), left to right, as `str::split` with a two-newline
/// separator does. `cur` holds the paragraph begun so far.
pub open spec fn split_paras_rec(s: Seq<char>, cur: Seq<char>) -> Seq<Seq<char>>
    decreases s.len(),
{
    if s.len() >= 2 && s[0] == '\n' && s[1] == '\n' {
        seq![cur] + split_paras_rec(s.skip(2), Seq::empty())
    } else if s.len() == 0 {
        seq![cur]
    } else {
        split_paras_rec(s.skip(1), cur.push(s[0]))
    }
}

/// The blank-line-separated paragraphs of `s`. An empty `s` yields one
/// empty paragraph.
pub open spec fn split_paras(s: Seq<char>) -> Seq<Seq<char>> {
    split_paras_rec(s, Seq::empty())
}

/// Split `v` into its blank-line-separated paragraphs.
pub fn split_paras_chars(v: &Vec<char>) -> (r: Vec<Vec<char>>)
    ensures
        seqs_view(r@) == split_paras(v@),
{
    let mut out: Vec<Vec<char>> = Vec::new();
    let mut cur: Vec<char> = Vec::new();
    let mut i: usize = 0;
    assert(v@.skip(0) =~= v@);
    assert(seqs_view(out@) + split_paras_rec(v@, cur@) =~= split_paras_rec(v@, cur@));
    while i < v.len()
        invariant
            i <= v.len(),
            split_paras(v@) == seqs_view(out@) + split_paras_rec(v@.skip(i as int), cur@),
        decreases v.len() - i,
    {
        let ghost pre_out = out@;
        let ghost pre_cur = cur@;
        if i + 1 < v.len() && v[i] == '\n' && v[i + 1] == '\n' {
            out.push(cur);
            cur = Vec::new();
            assert(seqs_view(out@) =~= seqs_view(pre_out) + seq![pre_cur]);
            assert(v@.skip(i as int).skip(2) =~= v@.skip(i + 2));
            assert(seqs_view(out@) + split_paras_rec(v@.skip(i + 2), cur@) =~= seqs_view(pre_out)
                + split_paras_rec(v@.skip(i as int), pre_cur));
            i = i + 2;
        } else {
            cur.push(v[i]);
            assert(v@.skip(i as int).skip(1) =~= v@.skip(i + 1));
            assert(split_paras_rec(v@.skip(i + 1), cur@) == split_paras_rec(
                v@.skip(i as int),
                pre_cur,
            ));
            i = i + 1;
        }
    }
    assert(v@.skip(v@.len() as int) =~= Seq::<char>::empty());
    out.push(cur);
    assert(seqs_view(out@) =~= seqs_view(out@.drop_last()) + seq![cur@]);
    out
}

/// `s` has no blank line: no two consecutive `'\n'` characters.
pub open spec fn no_blank_line(s: Seq<char>) -> bool {
    forall|i: int| 0 <= i < s.len() - 1 ==> !(#[trigger] s[i] == '\n' && s[i + 1] == '\n')
}

proof fn lemma_split_paras_no_sep(s: Seq<char>, cur: Seq<char>)
    requires
        no_blank_line(s),
    ensures
        split_paras_rec(s, cur) == seq![cur + s],
    decreases s.len(),
{
    if s.len() >= 2 && s[0] == '\n' && s[1] == '\n' {
        assert(false);
    } else if s.len() == 0 {
        assert(cur + s =~= cur);
    } else {
        assert(no_blank_line(s.skip(1))) by {
            assert(forall|i: int|
                0 <= i < s.skip(1).len() - 1 ==> #[trigger] s.skip(1)[i] == s[i + 1] && s.skip(1)[i + 1] == s[i + 2]);
        }
        lemma_split_paras_no_sep(s.skip(1), cur.push(s[0]));
        assert(cur.push(s[0]) + s.skip(1) =~= cur + s);
    }
}

proof fn lemma_split_paras_two_rec(a: Seq<char>, b: Seq<char>, cur: Seq<char>)
    requires
        a.len() > 0,
        b.len() > 0,
        no_blank_line(a),
        no_blank_line(b),
        a.last() != '\n',
    ensures
        split_paras_rec(a + seq!['\n', '\n'] + b, cur) == seq![cur + a, b],
    decreases a.len(),
{
    let s = a + seq!['\n', '\n'] + b;
    if a.len() == 1 {
        assert(s[0] == a[0]);
        assert(a[0] != '\n');
        assert(s.skip(1) =~= seq!['\n', '\n'] + b);
        assert(split_paras_rec(s, cur) == split_paras_rec(seq!['\n', '\n'] + b, cur.push(a[0])));
        let t = seq!['\n', '\n'] + b;
        assert(t[0] == '\n' && t[1] == '\n');
        assert(t.skip(2) =~= b);
        lemma_split_paras_no_sep(b, Seq::empty());
        assert(Seq::empty() + b =~= b);
        assert(cur.push(a[0]) =~= cur + a);
    } else {
        assert(s[0] == a[0]);
        if s[0] == '\n' && s[1] == '\n' {
            assert(s[1] == a[1]);
            assert(false);
        }
        assert(s.skip(1) =~= a.skip(1) + seq!['\n', '\n'] + b);
        assert(no_blank_line(a.skip(1))) by {
            assert(forall|i: int|
                0 <= i < a.skip(1).len() - 1 ==> #[trigger] a.skip(1)[i] == a[i + 1] && a.skip(1)[i + 1] == a[i + 2]);
        }
        assert(a.skip(1).last() == a.last());
        lemma_split_paras_two_rec(a.skip(1), b, cur.push(a[0]));
        assert(cur.push(a[0]) + a.skip(1) =~= cur + a);
    }
}

/// A description holding exactly one blank line between two non-empty
/// blocks splits into exactly those two paragraphs.
pub proof fn lemma_two_paragraph_split(a: Seq<char>, b: Seq<char>)
    requires
        a.len() > 0,
        b.len() > 0,
        no_blank_line(a),
        no_blank_line(b),
        a.last() != '\n',
    ensures
        split_paras(a + seq!['\n', '\n'] + b) == seq![a, b],
{
    lemma_split_paras_two_rec(a, b, Seq::empty());
    assert(Seq::empty() + a =~= a);
}

/// Every single-quote character in `s` becomes the marker `-prime`;
/// all other characters stay as they are.
pub open spec fn prime_rewrite(s: Seq<char>) -> Seq<char>
    decreases s.len(),
{
    if s.len() == 0 {
        Seq::empty()
    } else if s[0] == '\'' {
        seq!['-', 'p', 'r', 'i', 'm', 'e'] + prime_rewrite(s.skip(1))
    } else {
        seq![s[0]] + prime_rewrite(s.skip(1))
    }
}

/// Rewrite every single-quote character of `v` to `-prime`.
pub fn prime_rewrite_chars(v: &Vec<char>) -> (r: Vec<char>)
    ensures
        r@ == prime_rewrite(v@),
{
    let mut r: Vec<char> = Vec::new();
    let mut i: usize = 0;
    assert(v@.skip(0) =~= v@);
    assert(r@ + prime_rewrite(v@) =~= prime_rewrite(v@));
    while i < v.len()
        invariant
            i <= v.len(),
            r@ + prime_rewrite(v@.skip(i as int)) == prime_rewrite(v@),
        decreases v.len() - i,
    {
        let ghost pre = r@;
        if v[i] == '\'' {
            r.push('-');
            r.push('p');
            r.push('r');
            r.push('i');
            r.push('m');
            r.push('e');
            assert(r@ =~= pre + seq!['-', 'p', 'r', 'i', 'm', 'e']);
        } else {
            r.push(v[i]);
            assert(r@ =~= pre + seq![v@[i as int]]);
        }
        assert(v@.skip(i as int).skip(1) =~= v@.skip(i + 1));
        assert(r@ + prime_rewrite(v@.skip(i + 1)) =~= pre + prime_rewrite(v@.skip(i as int)));
        i = i + 1;
    }
    assert(v@.skip(v@.len() as int) =~= Seq::<char>::empty());
    assert(r@ =~= r@ + prime_rewrite(Seq::empty()));
    r
}

/// The rewriting of single quotes is total: its result never holds a
/// single-quote character, whatever the input.
pub proof fn lemma_prime_rewrite_quote_free(s: Seq<char>, i: int)
    requires
        0 <= i < prime_rewrite(s).len(),
    ensures
        prime_rewrite(s)[i] != '\'',
    decreases s.len(),
{
    if s.len() == 0 {
    } else if s[0] == '\'' {
        if i >= 6 {
            lemma_prime_rewrite_quote_free(s.skip(1), i - 6);
        }
    } else {
        if i >= 1 {
            lemma_prime_rewrite_quote_free(s.skip(1), i - 1);
        }
    }
}

} // verus!
