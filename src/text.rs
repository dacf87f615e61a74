use vstd::prelude::*;

verus! {

/// The characters that `char::is_whitespace` accepts: Unicode's White_Space set.
pub open spec fn is_white(c: char) -> bool {
    let u = c as u32;
    (0x9 <= u && u <= 0xd) || u == 0x20 || u == 0x85 || u == 0xa0 || u == 0x1680
        || (0x2000 <= u && u <= 0x200a) || u == 0x2028 || u == 0x2029 || u == 0x202f
        || u == 0x205f || u == 0x3000
}

/// `s` with each occurrence of `pat`, scanned left to right without overlap,
/// replaced by `by`.
pub open spec fn replace_all(s: Seq<char>, pat: Seq<char>, by: Seq<char>) -> Seq<char>
    decreases s.len(),
{
    if s.len() == 0 || pat.len() == 0 {
        s
    } else if pat.len() <= s.len() && s.take(pat.len() as int) == pat {
        by + replace_all(s.skip(pat.len() as int), pat, by)
    } else {
        seq![s[0]] + replace_all(s.skip(1), pat, by)
    }
}

/// `s` without its leading white space.
pub open spec fn trim_start(s: Seq<char>) -> Seq<char>
    decreases s.len(),
{
    if s.len() > 0 && is_white(s[0]) {
        trim_start(s.skip(1))
    } else {
        s
    }
}

/// `s` without its trailing white space.
pub open spec fn trim_end(s: Seq<char>) -> Seq<char>
    decreases s.len(),
{
    if s.len() > 0 && is_white(s.last()) {
        trim_end(s.drop_last())
    } else {
        s
    }
}

/// `s` without white space at either end.
pub open spec fn trim(s: Seq<char>) -> Seq<char> {
    trim_end(trim_start(s))
}

pub fn is_white_char(c: char) -> (r: bool)
    ensures
        r == is_white(c),
{
    let u = c as u32;
    (0x9 <= u && u <= 0xd) || u == 0x20 || u == 0x85 || u == 0xa0 || u == 0x1680
        || (0x2000 <= u && u <= 0x200a) || u == 0x2028 || u == 0x2029 || u == 0x202f
        || u == 0x205f || u == 0x3000
}

/// The characters of `s`, in order.
pub fn chars_of(s: &str) -> (r: Vec<char>)
    ensures
        r@ == s@,
{
    let mut r: Vec<char> = Vec::new();
    for c in it: s.chars()
        invariant
            it.seq() == s@,
            r@ == it.seq().take(it.index() as int),
    {
        r.push(c);
    }
    r
}

/// Relies on `String::push`: the character is appended at the end.
#[verifier::external_body]
fn push_char(s: &mut String, c: char)
    ensures
        final(s)@ == old(s)@.push(c),
{
    s.push(c);
}

/// The string made of the characters of `v`, in order.
pub fn string_of(v: &Vec<char>) -> (r: String)
    ensures
        r@ == v@,
{
    let mut r = String::new();
    let mut i: usize = 0;
    while i < v.len()
        invariant
            i <= v.len(),
            r@ == v@.take(i as int),
        decreases v.len() - i,
    {
        push_char(&mut r, v[i]);
        assert(v@.take(i + 1) == v@.take(i as int).push(v@[i as int]));
        i = i + 1;
    }
    assert(v@.take(v.len() as int) == v@);
    r
}

/// Whether the two sequences hold the same characters.
pub fn same_chars(a: &Vec<char>, b: &Vec<char>) -> (r: bool)
    ensures
        r == (a@ == b@),
{
    if a.len() != b.len() {
        return false;
    }
    let mut i: usize = 0;
    while i < a.len()
        invariant
            a.len() == b.len(),
            i <= a.len(),
            a@.take(i as int) == b@.take(i as int),
        decreases a.len() - i,
    {
        if a[i] != b[i] {
            return false;
        }
        assert(a@.take(i + 1) == a@.take(i as int).push(a@[i as int]));
        assert(b@.take(i + 1) == b@.take(i as int).push(b@[i as int]));
        i = i + 1;
    }
    assert(a@.take(a.len() as int) == a@);
    assert(b@.take(b.len() as int) == b@);
    true
}

/// Whether `pat` occurs in `s` at position `i`.
fn occurs_at(s: &Vec<char>, i: usize, pat: &Vec<char>) -> (r: bool)
    requires
        i <= s.len(),
    ensures
        r == (pat.len() <= s.len() - i && s@.subrange(i as int, i + pat.len()) == pat@),
{
    if pat.len() > s.len() - i {
        return false;
    }
    let mut j: usize = 0;
    while j < pat.len()
        invariant
            pat.len() <= s.len() - i,
            j <= pat.len(),
            s@.subrange(i as int, i + j) == pat@.take(j as int),
        decreases pat.len() - j,
    {
        if s[i + j] != pat[j] {
            assert(s@.subrange(i as int, i + pat.len())[j as int] != pat@[j as int]);
            return false;
        }
        assert(s@.subrange(i as int, i + j + 1) == s@.subrange(i as int, i + j).push(s@[i + j]));
        assert(pat@.take(j + 1) == pat@.take(j as int).push(pat@[j as int]));
        j = j + 1;
    }
    assert(pat@.take(pat.len() as int) == pat@);
    true
}

/// Replaces each occurrence of `pat` in `s` by `by`, as `str::replace` does.
pub fn replace_chars(s: &Vec<char>, pat: &Vec<char>, by: &Vec<char>) -> (r: Vec<char>)
    requires
        pat.len() > 0,
    ensures
        r@ == replace_all(s@, pat@, by@),
{
    let mut out: Vec<char> = Vec::new();
    let mut i: usize = 0;
    assert(s@.skip(0) == s@);
    assert(out@ + replace_all(s@, pat@, by@) == replace_all(s@, pat@, by@));
    while i < s.len()
        invariant
            pat.len() > 0,
            i <= s.len(),
            out@ + replace_all(s@.skip(i as int), pat@, by@) == replace_all(s@, pat@, by@),
        decreases s.len() - i,
    {
        let rest = Ghost(s@.skip(i as int));
        if occurs_at(s, i, pat) {
            assert(rest@.take(pat.len() as int) == s@.subrange(i as int, i + pat.len()));
            assert(rest@.skip(pat.len() as int) == s@.skip(i + pat.len()));
            let mut k: usize = 0;
            let ghost start = out@;
            while k < by.len()
                invariant
                    k <= by.len(),
                    out@ == start + by@.take(k as int),
                decreases by.len() - k,
            {
                out.push(by[k]);
                assert(by@.take(k + 1) == by@.take(k as int).push(by@[k as int]));
                k = k + 1;
            }
            assert(by@.take(by.len() as int) == by@);
            assert(out@ + replace_all(s@.skip(i + pat.len()), pat@, by@) == start + (by@
                + replace_all(rest@.skip(pat.len() as int), pat@, by@)));
            i = i + pat.len();
        } else {
            assert(!(pat.len() <= rest@.len() && rest@.take(pat.len() as int) == pat@)) by {
                if pat.len() <= rest@.len() {
                    assert(rest@.take(pat.len() as int) == s@.subrange(i as int, i + pat.len()));
                }
            }
            assert(rest@.skip(1) == s@.skip(i + 1));
            let ghost start = out@;
            out.push(s[i]);
            assert(out@ + replace_all(s@.skip(i + 1), pat@, by@) == start + (seq![rest@[0]]
                + replace_all(rest@.skip(1), pat@, by@)));
            i = i + 1;
        }
    }
    assert(s@.skip(s.len() as int) == Seq::<char>::empty());
    assert(out@ + Seq::<char>::empty() == out@);
    out
}

/// Copies `s[lo..hi]`.
fn copy_range(s: &Vec<char>, lo: usize, hi: usize) -> (r: Vec<char>)
    requires
        lo <= hi <= s.len(),
    ensures
        r@ == s@.subrange(lo as int, hi as int),
{
    let mut r: Vec<char> = Vec::new();
    let mut i: usize = lo;
    while i < hi
        invariant
            lo <= i <= hi <= s.len(),
            r@ == s@.subrange(lo as int, i as int),
        decreases hi - i,
    {
        r.push(s[i]);
        assert(s@.subrange(lo as int, i + 1) == s@.subrange(lo as int, i as int).push(s@[i as int]));
        i = i + 1;
    }
    r
}

/// Removes white space at both ends, as `str::trim` does.
pub fn trim_chars(s: &Vec<char>) -> (r: Vec<char>)
    ensures
        r@ == trim(s@),
{
    let mut lo: usize = 0;
    assert(s@.skip(0) == s@);
    while lo < s.len() && is_white_char(s[lo])
        invariant
            lo <= s.len(),
            trim_start(s@.skip(lo as int)) == trim_start(s@),
        decreases s.len() - lo,
    {
        assert(s@.skip(lo as int).skip(1) == s@.skip(lo + 1));
        lo = lo + 1;
    }
    assert(trim_start(s@) == s@.skip(lo as int));
    let mut hi: usize = s.len();
    assert(s@.subrange(lo as int, hi as int) == s@.skip(lo as int));
    while hi > lo && is_white_char(s[hi - 1])
        invariant
            lo <= hi <= s.len(),
            trim_end(s@.subrange(lo as int, hi as int)) == trim_end(s@.skip(lo as int)),
        decreases hi - lo,
    {
        assert(s@.subrange(lo as int, hi as int).drop_last() == s@.subrange(lo as int, hi - 1));
        hi = hi - 1;
    }
    copy_range(s, lo, hi)
}

/// The maximal runs of non-white characters of `s`, in order, as
/// `str::split_whitespace` yields them.
pub open spec fn words(s: Seq<char>) -> Seq<Seq<char>>
    decreases s.len(),
{
    if s.len() == 0 {
        seq![]
    } else {
        let ws = words(s.drop_last());
        if is_white(s.last()) {
            ws
        } else if s.len() >= 2 && !is_white(s[s.len() - 2]) {
            ws.update(ws.len() - 1, ws.last().push(s.last()))
        } else {
            ws.push(seq![s.last()])
        }
    }
}

/// The uppercase mapping of `c`, as `char::to_uppercase` yields it.
pub uninterp spec fn upper_of(c: char) -> Seq<char>;

/// `w` with its first character replaced by that character's uppercase mapping.
pub open spec fn capitalize(w: Seq<char>) -> Seq<char> {
    if w.len() == 0 {
        w
    } else {
        upper_of(w[0]) + w.skip(1)
    }
}

/// The sequences of `ws`, in order, with `sep` between each two.
pub open spec fn join(ws: Seq<Seq<char>>, sep: Seq<char>) -> Seq<char>
    decreases ws.len(),
{
    if ws.len() == 0 {
        seq![]
    } else if ws.len() == 1 {
        ws[0]
    } else {
        join(ws.drop_last(), sep) + sep + ws.last()
    }
}

/// The words of `s`, each capitalized, separated by single spaces.
pub open spec fn title_words(s: Seq<char>) -> Seq<char> {
    join(words(s).map_values(|w: Seq<char>| capitalize(w)), seq![' '])
}

proof fn lemma_words_shape(s: Seq<char>)
    ensures
        forall|j: int| 0 <= j < words(s).len() ==> #[trigger] words(s)[j].len() > 0,
        s.len() > 0 && !is_white(s.last()) ==> words(s).len() > 0,
    decreases s.len(),
{
    if s.len() > 0 {
        lemma_words_shape(s.drop_last());
        if !is_white(s.last()) && s.len() >= 2 && !is_white(s[s.len() - 2]) {
            assert(s.drop_last().last() == s[s.len() - 2]);
        }
    }
}

/// Relies on `char::to_uppercase`: the characters of the uppercase mapping of
/// `c`, one or more of them; an ASCII lowercase letter gives its capital, and
/// any other ASCII character, which has no uppercase mapping, gives itself.
#[verifier::external_body]
fn upper_chars(c: char) -> (r: Vec<char>)
    ensures
        r@ == upper_of(c),
        r@.len() >= 1,
        'a' <= c && c <= 'z' ==> r@.len() == 1 && r@[0] as u32 == c as u32 - 32,
        (c as u32) < 128 && !('a' <= c && c <= 'z') ==> r@ == seq![c],
{
    c.to_uppercase().collect()
}

/// The views of the words in `ws`.
pub open spec fn views(ws: Seq<Vec<char>>) -> Seq<Seq<char>> {
    ws.map_values(|w: Vec<char>| w@)
}

/// `w` with its first character replaced by `upper_first`.
pub open spec fn capitalize_as(w: Seq<char>, upper_first: Seq<char>) -> Seq<char> {
    if w.len() == 0 {
        w
    } else {
        upper_first + w.skip(1)
    }
}

/// The runs of non-white characters of `s`, as `str::split_whitespace` yields
/// them.
pub fn split_words(s: &Vec<char>) -> (r: Vec<Vec<char>>)
    ensures
        views(r@) == words(s@),
{
    let mut done: Vec<Vec<char>> = Vec::new();
    let mut cur: Vec<char> = Vec::new();
    let mut i: usize = 0;
    assert(s@.take(0) == Seq::<char>::empty());
    assert(views(done@) == Seq::<Seq<char>>::empty());
    while i < s.len()
        invariant
            i <= s.len(),
            cur.len() > 0 <==> (i > 0 && !is_white(s@[i - 1])),
            cur.len() > 0 ==> words(s@.take(i as int)) == views(done@).push(cur@),
            cur.len() == 0 ==> words(s@.take(i as int)) == views(done@),
        decreases s.len() - i,
    {
        let c = s[i];
        let ghost pre = s@.take(i as int);
        let ghost cur_s = s@.take(i + 1);
        assert(cur_s.drop_last() == pre);
        assert(cur_s.last() == c);
        if i >= 1 {
            assert(cur_s[cur_s.len() - 2] == s@[i - 1]);
        }
        if is_white_char(c) {
            if cur.len() > 0 {
                let ghost before = done@;
                let ghost w = cur@;
                done.push(cur);
                cur = Vec::new();
                assert(views(done@) == views(before).push(w));
            }
        } else if cur.len() > 0 {
            let ghost ws = views(done@).push(cur@);
            cur.push(c);
            assert(views(done@).push(cur@) == ws.update(ws.len() - 1, ws.last().push(c)));
        } else {
            cur.push(c);
            assert(cur@ == seq![c]);
        }
        i = i + 1;
    }
    assert(s@.take(s.len() as int) == s@);
    if cur.len() > 0 {
        let ghost before = done@;
        done.push(cur);
        assert(views(done@) == views(before).push(cur@));
    }
    done
}

/// `word` with its first character replaced by `upper_first`, the uppercase
/// mapping of that character; an empty word stays empty.
pub fn capitalize_with(word: &Vec<char>, upper_first: &Vec<char>) -> (r: Vec<char>)
    ensures
        r@ == capitalize_as(word@, upper_first@),
{
    if word.len() == 0 {
        return Vec::new();
    }
    let mut out: Vec<char> = Vec::new();
    let mut k: usize = 0;
    while k < upper_first.len()
        invariant
            k <= upper_first.len(),
            out@ == upper_first@.take(k as int),
        decreases upper_first.len() - k,
    {
        out.push(upper_first[k]);
        assert(upper_first@.take(k + 1) == upper_first@.take(k as int).push(upper_first@[k as int]));
        k = k + 1;
    }
    assert(upper_first@.take(upper_first.len() as int) == upper_first@);
    let mut j: usize = 1;
    while j < word.len()
        invariant
            1 <= j <= word.len(),
            out@ == upper_first@ + word@.subrange(1, j as int),
        decreases word.len() - j,
    {
        out.push(word[j]);
        assert(word@.subrange(1, j + 1) == word@.subrange(1, j as int).push(word@[j as int]));
        j = j + 1;
    }
    assert(word@.subrange(1, word.len() as int) == word@.skip(1));
    out
}

/// The words of `ws`, in order, with `sep` between each two.
pub fn join_words(ws: &Vec<Vec<char>>, sep: char) -> (r: Vec<char>)
    ensures
        r@ == join(views(ws@), seq![sep]),
{
    let mut out: Vec<char> = Vec::new();
    let mut i: usize = 0;
    assert(views(ws@).take(0) == Seq::<Seq<char>>::empty());
    while i < ws.len()
        invariant
            i <= ws.len(),
            out@ == join(views(ws@).take(i as int), seq![sep]),
        decreases ws.len() - i,
    {
        let ghost vs = views(ws@);
        let ghost start = out@;
        assert(vs.take(i + 1).drop_last() == vs.take(i as int));
        assert(vs.take(i + 1).last() == ws@[i as int]@);
        if i > 0 {
            out.push(sep);
        }
        let w = &ws[i];
        let ghost mid = out@;
        let mut k: usize = 0;
        while k < w.len()
            invariant
                k <= w.len(),
                out@ == mid + w@.take(k as int),
            decreases w.len() - k,
        {
            out.push(w[k]);
            assert(w@.take(k + 1) == w@.take(k as int).push(w@[k as int]));
            k = k + 1;
        }
        assert(w@.take(w.len() as int) == w@);
        if i == 0 {
            assert(vs.take(1) == seq![vs[0]]);
        }
        i = i + 1;
    }
    assert(views(ws@).take(ws.len() as int) == views(ws@));
    out
}

/// The words of `s`, capitalized and joined by single spaces.
pub fn title_case(s: &Vec<char>) -> (r: Vec<char>)
    ensures
        r@ == title_words(s@),
{
    let ws = split_words(s);
    proof {
        lemma_words_shape(s@);
    }
    let ghost target = words(s@).map_values(|w: Seq<char>| capitalize(w));
    let mut caps: Vec<Vec<char>> = Vec::new();
    let mut i: usize = 0;
    while i < ws.len()
        invariant
            i <= ws.len(),
            views(ws@) == words(s@),
            forall|j: int| 0 <= j < words(s@).len() ==> #[trigger] words(s@)[j].len() > 0,
            target == words(s@).map_values(|w: Seq<char>| capitalize(w)),
            views(caps@) == target.take(i as int),
        decreases ws.len() - i,
    {
        let w = &ws[i];
        assert(views(ws@)[i as int] == w@);
        assert(w@.len() > 0);
        let up = upper_chars(w[0]);
        let cw = capitalize_with(w, &up);
        let ghost before = caps@;
        caps.push(cw);
        assert(views(caps@) == views(before).push(cw@));
        assert(target.take(i + 1) == target.take(i as int).push(target[i as int]));
        i = i + 1;
    }
    assert(target.take(ws.len() as int) == target);
    join_words(&caps, ' ')
}

} // verus!
