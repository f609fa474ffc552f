//! Character-level text primitives shared by the other modules.
//!
//! A string is modelled by its view, a `Seq<char>`. The executable code
//! works on `Vec<char>` buffers and converts at the edges of the library.

use vstd::prelude::*;

verus! {

/// `String::push` appends exactly one character and leaves the rest of the
/// string as it was.
pub assume_specification[ String::push ](s: &mut String, c: char)
    ensures
        final(s)@ == old(s)@.push(c),
;

/// The views of a list of strings, in order.
pub open spec fn texts(v: Seq<String>) -> Seq<Seq<char>> {
    Seq::new(v.len(), |i: int| v[i]@)
}

/// The views of a list of character buffers, in order.
pub open spec fn buffers(v: Seq<Vec<char>>) -> Seq<Seq<char>> {
    Seq::new(v.len(), |i: int| v[i]@)
}

/// The views of a list of name and value pairs.
pub open spec fn pairs(list: Seq<(String, String)>) -> Seq<(Seq<char>, Seq<char>)> {
    Seq::new(list.len(), |i: int| (list[i].0@, list[i].1@))
}

/// `list` with `entry` at its end, where there is one.
pub open spec fn with_entry(list: Seq<Seq<char>>, entry: Option<Seq<char>>) -> Seq<Seq<char>> {
    match entry {
        Some(e) => list.push(e),
        None => list,
    }
}

/// `pat` occurs in `s` starting at position `i`.
pub open spec fn occurs_at(s: Seq<char>, pat: Seq<char>, i: int) -> bool {
    &&& 0 <= i
    &&& i + pat.len() <= s.len()
    &&& s.subrange(i, i + pat.len()) == pat
}

/// `pat` occurs somewhere in `s`.
pub open spec fn contains(s: Seq<char>, pat: Seq<char>) -> bool {
    exists|i: int| occurs_at(s, pat, i)
}

/// `s` begins with `pat`.
pub open spec fn starts_with(s: Seq<char>, pat: Seq<char>) -> bool {
    occurs_at(s, pat, 0)
}

/// The position of the first occurrence of `pat` in `s` at or after `from`.
pub open spec fn index_from(s: Seq<char>, pat: Seq<char>, from: int) -> Option<int>
    decreases s.len() + 1 - from,
{
    if from < 0 || from + pat.len() > s.len() {
        None
    } else if occurs_at(s, pat, from) {
        Some(from)
    } else {
        index_from(s, pat, from + 1)
    }
}

/// The position of the first occurrence of `pat` in `s`.
pub open spec fn index_of(s: Seq<char>, pat: Seq<char>) -> Option<int> {
    index_from(s, pat, 0)
}

/// `index_from` returns the least matching position at or after `from`,
/// and `None` exactly when there is none.
pub proof fn lemma_index_from(s: Seq<char>, pat: Seq<char>, from: int)
    requires
        0 <= from,
    ensures
        match index_from(s, pat, from) {
            Some(i) => from <= i && occurs_at(s, pat, i) && forall|j: int|
                from <= j < i ==> !occurs_at(s, pat, j),
            None => forall|j: int| from <= j ==> !occurs_at(s, pat, j),
        },
    decreases s.len() + 1 - from,
{
    if from + pat.len() > s.len() {
    } else if occurs_at(s, pat, from) {
    } else {
        lemma_index_from(s, pat, from + 1);
    }
}

/// `index_of` finds an occurrence exactly when there is one.
pub proof fn lemma_index_of_contains(s: Seq<char>, pat: Seq<char>)
    ensures
        index_of(s, pat) is Some <==> contains(s, pat),
{
    lemma_index_from(s, pat, 0);
    if contains(s, pat) {
        let i = choose|i: int| occurs_at(s, pat, i);
        assert(occurs_at(s, pat, i));
    }
}

/// The characters of `s`, in order.
pub fn chars_of(s: &str) -> (v: Vec<char>)
    ensures
        v@ == s@,
{
    let mut v: Vec<char> = Vec::new();
    for c in it: s.chars()
        invariant
            v@.len() == it.index(),
            it.seq() == s@,
            forall|j: int| 0 <= j < v@.len() ==> v@[j] == it.seq()[j],
    {
        v.push(c);
    }
    assert(v@ =~= s@);
    v
}

/// The string whose characters are `v`, in order.
pub fn string_of(v: &Vec<char>) -> (s: String)
    ensures
        s@ == v@,
{
    let mut s = String::new();
    let mut i: usize = 0;
    while i < v.len()
        invariant
            i <= v.len(),
            s@ == v@.subrange(0, i as int),
        decreases v.len() - i,
    {
        s.push(v[i]);
        assert(v@.subrange(0, i + 1) =~= v@.subrange(0, i as int).push(v@[i as int]));
        i += 1;
    }
    assert(v@.subrange(0, v.len() as int) =~= v@);
    s
}

/// Whether `pat` occurs in `s` at position `i`.
pub fn matches_at(s: &Vec<char>, pat: &Vec<char>, i: usize) -> (r: bool)
    ensures
        r == occurs_at(s@, pat@, i as int),
{
    if pat.len() > s.len() || i > s.len() - pat.len() {
        return false;
    }
    let mut k: usize = 0;
    while k < pat.len()
        invariant
            k <= pat.len(),
            i + pat.len() <= s.len(),
            forall|j: int| 0 <= j < k ==> s@[i + j] == pat@[j],
        decreases pat.len() - k,
    {
        if s[i + k] != pat[k] {
            proof {
                let sub = s@.subrange(i as int, i + pat@.len());
                assert(sub[k as int] == s@[i + k]);
            }
            return false;
        }
        k += 1;
    }
    assert(s@.subrange(i as int, i + pat@.len()) =~= pat@);
    true
}

/// The first position at or after `from` where `pat` occurs in `s`.
pub fn find_from(s: &Vec<char>, pat: &Vec<char>, from: usize) -> (r: Option<usize>)
    ensures
        match r {
            Some(i) => index_from(s@, pat@, from as int) == Some(i as int) && from <= i
                && occurs_at(s@, pat@, i as int),
            None => index_from(s@, pat@, from as int) is None,
        },
{
    proof {
        lemma_index_from(s@, pat@, from as int);
    }
    if pat.len() > s.len() {
        return None;
    }
    let last: usize = s.len() - pat.len();
    let mut i: usize = from;
    while i < last
        invariant
            from <= i,
            last == s.len() - pat.len(),
            index_from(s@, pat@, from as int) == index_from(s@, pat@, i as int),
        decreases last - i,
    {
        if matches_at(s, pat, i) {
            return Some(i);
        }
        i += 1;
    }
    if i == last && matches_at(s, pat, i) {
        Some(i)
    } else {
        assert(index_from(s@, pat@, i + 1) is None);
        None
    }
}

/// The first position where `pat` occurs in `s`.
pub fn find(s: &Vec<char>, pat: &Vec<char>) -> (r: Option<usize>)
    ensures
        match r {
            Some(i) => index_of(s@, pat@) == Some(i as int) && occurs_at(s@, pat@, i as int),
            None => index_of(s@, pat@) is None,
        },
{
    find_from(s, pat, 0)
}

/// Whether `pat` occurs somewhere in `s`.
pub fn includes(s: &Vec<char>, pat: &Vec<char>) -> (r: bool)
    ensures
        r == contains(s@, pat@),
{
    proof {
        lemma_index_of_contains(s@, pat@);
    }
    find(s, pat).is_some()
}

/// Whether two buffers hold the same text.
pub fn same_text(a: &Vec<char>, b: &Vec<char>) -> (r: bool)
    ensures
        r == (a@ == b@),
{
    if a.len() != b.len() {
        return false;
    }
    proof {
        assert(a@.subrange(0, a@.len() as int) =~= a@);
    }
    matches_at(a, b, 0)
}

/// A copy of the characters of `s` from `from` up to `to`.
pub fn slice(s: &Vec<char>, from: usize, to: usize) -> (r: Vec<char>)
    requires
        from <= to <= s.len(),
    ensures
        r@ == s@.subrange(from as int, to as int),
{
    let mut r: Vec<char> = Vec::new();
    let mut i: usize = from;
    while i < to
        invariant
            from <= i <= to,
            to <= s.len(),
            r@ == s@.subrange(from as int, i as int),
        decreases to - i,
    {
        r.push(s[i]);
        assert(s@.subrange(from as int, i + 1) =~= s@.subrange(from as int, i as int).push(
            s@[i as int],
        ));
        i += 1;
    }
    r
}

/// Appends the characters of `tail` to `buf`.
pub fn extend(buf: &mut Vec<char>, tail: &Vec<char>)
    ensures
        final(buf)@ == old(buf)@ + tail@,
{
    let mut i: usize = 0;
    while i < tail.len()
        invariant
            i <= tail.len(),
            buf@ == old(buf)@ + tail@.subrange(0, i as int),
        decreases tail.len() - i,
    {
        buf.push(tail[i]);
        assert(tail@.subrange(0, i + 1) =~= tail@.subrange(0, i as int).push(tail@[i as int]));
        assert(buf@ =~= old(buf)@ + tail@.subrange(0, i + 1));
        i += 1;
    }
    assert(tail@.subrange(0, tail.len() as int) =~= tail@);
}

/// Unicode white space: the characters with the `White_Space` property.
pub open spec fn is_space(c: char) -> bool {
    let n = c as u32;
    ||| 0x09 <= n <= 0x0D
    ||| n == 0x20
    ||| n == 0x85
    ||| n == 0xA0
    ||| n == 0x1680
    ||| 0x2000 <= n <= 0x200A
    ||| n == 0x2028
    ||| n == 0x2029
    ||| n == 0x202F
    ||| n == 0x205F
    ||| n == 0x3000
}

/// `s` without its leading white space.
pub open spec fn trim_start(s: Seq<char>) -> Seq<char>
    decreases s.len(),
{
    if s.len() > 0 && is_space(s[0]) {
        trim_start(s.drop_first())
    } else {
        s
    }
}

/// `s` without its trailing white space.
pub open spec fn trim_end(s: Seq<char>) -> Seq<char>
    decreases s.len(),
{
    if s.len() > 0 && is_space(s.last()) {
        trim_end(s.drop_last())
    } else {
        s
    }
}

/// `s` without leading and trailing white space.
pub open spec fn trim(s: Seq<char>) -> Seq<char> {
    trim_end(trim_start(s))
}

/// The pieces of `s` between occurrences of `sep`, in order. There is always
/// at least one piece; a separator at either end yields an empty piece.
pub open spec fn split(s: Seq<char>, sep: char) -> Seq<Seq<char>>
    decreases s.len(),
{
    if s.len() == 0 {
        seq![Seq::<char>::empty()]
    } else {
        let before = split(s.drop_last(), sep);
        if s.last() == sep {
            before.push(Seq::<char>::empty())
        } else {
            before.drop_last().push(before.last().push(s.last()))
        }
    }
}

/// The pieces of `parts` in order, with `sep` between neighbours.
pub open spec fn join(parts: Seq<Seq<char>>, sep: char) -> Seq<char>
    decreases parts.len(),
{
    if parts.len() == 0 {
        Seq::<char>::empty()
    } else if parts.len() == 1 {
        parts[0]
    } else {
        join(parts.drop_last(), sep).push(sep) + parts.last()
    }
}

/// `s` with every occurrence of `pat` taken out, scanning from the left;
/// occurrences do not overlap. An empty `pat` takes nothing out.
pub open spec fn remove_all(s: Seq<char>, pat: Seq<char>) -> Seq<char>
    decreases s.len(),
{
    if pat.len() == 0 || s.len() == 0 {
        s
    } else if starts_with(s, pat) {
        remove_all(s.skip(pat.len() as int), pat)
    } else {
        seq![s[0]] + remove_all(s.drop_first(), pat)
    }
}

/// What follows the last `sep` in `s`; all of `s` when it holds no `sep`.
pub open spec fn last_segment(s: Seq<char>, sep: char) -> Seq<char>
    decreases s.len(),
{
    if s.len() == 0 {
        s
    } else if s.last() == sep {
        Seq::<char>::empty()
    } else {
        last_segment(s.drop_last(), sep).push(s.last())
    }
}

/// What precedes the `n`-th `sep` in `s`; all of `s` when it holds fewer
/// than `n` of them, and nothing when `n` is 0.
pub open spec fn leading_segments(s: Seq<char>, sep: char, n: nat) -> Seq<char>
    decreases s.len(),
{
    if s.len() == 0 || n == 0 {
        Seq::<char>::empty()
    } else if s[0] == sep {
        if n == 1 {
            Seq::<char>::empty()
        } else {
            seq![sep] + leading_segments(s.drop_first(), sep, (n - 1) as nat)
        }
    } else {
        seq![s[0]] + leading_segments(s.drop_first(), sep, n)
    }
}

/// Whether `c` is Unicode white space.
pub fn is_space_char(c: char) -> (r: bool)
    ensures
        r == is_space(c),
{
    let n: u32 = c as u32;
    (0x09 <= n && n <= 0x0D) || n == 0x20 || n == 0x85 || n == 0xA0 || n == 0x1680 || (0x2000 <= n
        && n <= 0x200A) || n == 0x2028 || n == 0x2029 || n == 0x202F || n == 0x205F || n == 0x3000
}

/// `s` without leading and trailing white space.
pub fn trimmed(s: &Vec<char>) -> (r: Vec<char>)
    ensures
        r@ == trim(s@),
{
    let n: usize = s.len();
    let mut a: usize = 0;
    assert(s@.skip(0) =~= s@);
    while a < n && is_space_char(s[a])
        invariant
            a <= n,
            n == s.len(),
            trim_start(s@) == trim_start(s@.skip(a as int)),
        decreases n - a,
    {
        assert(s@.skip(a as int).drop_first() =~= s@.skip(a + 1));
        a += 1;
    }
    assert(trim_start(s@) == s@.skip(a as int));
    assert(s@.skip(a as int) =~= s@.subrange(a as int, n as int));
    let mut b: usize = n;
    while b > a && is_space_char(s[b - 1])
        invariant
            a <= b <= n,
            n == s.len(),
            trim(s@) == trim_end(s@.subrange(a as int, b as int)),
        decreases b - a,
    {
        assert(s@.subrange(a as int, b as int).drop_last() =~= s@.subrange(a as int, b - 1));
        b -= 1;
    }
    slice(s, a, b)
}

/// The pieces of `s` between occurrences of `sep`.
pub fn split_on(s: &Vec<char>, sep: char) -> (r: Vec<Vec<char>>)
    ensures
        buffers(r@) == split(s@, sep),
{
    let mut done: Vec<Vec<char>> = Vec::new();
    let mut cur: Vec<char> = Vec::new();
    let mut i: usize = 0;
    while i < s.len()
        invariant
            i <= s.len(),
            buffers(done@).push(cur@) == split(s@.subrange(0, i as int), sep),
        decreases s.len() - i,
    {
        let ghost before = split(s@.subrange(0, i as int), sep);
        assert(s@.subrange(0, i + 1).drop_last() =~= s@.subrange(0, i as int));
        if s[i] == sep {
            done.push(cur);
            cur = Vec::new();
            assert(buffers(done@) =~= before);
            assert(buffers(done@).push(cur@) =~= before.push(Seq::<char>::empty()));
        } else {
            let ghost old_cur = cur@;
            cur.push(s[i]);
            assert(before.drop_last() =~= buffers(done@));
            assert(before.last() == old_cur);
        }
        i += 1;
    }
    assert(s@.subrange(0, s.len() as int) =~= s@);
    done.push(cur);
    assert(buffers(done@) =~= split(s@, sep));
    done
}

/// The pieces of `parts` in order, with `sep` between neighbours.
pub fn joined(parts: &Vec<Vec<char>>, sep: char) -> (r: Vec<char>)
    ensures
        r@ == join(buffers(parts@), sep),
{
    let mut r: Vec<char> = Vec::new();
    let mut i: usize = 0;
    while i < parts.len()
        invariant
            i <= parts.len(),
            r@ == join(buffers(parts@).subrange(0, i as int), sep),
        decreases parts.len() - i,
    {
        let ghost upto = buffers(parts@).subrange(0, i + 1);
        assert(upto.drop_last() =~= buffers(parts@).subrange(0, i as int));
        assert(upto.last() == parts@[i as int]@);
        if i > 0 {
            r.push(sep);
        } else {
            assert(r@ =~= Seq::<char>::empty());
            assert(r@ + parts@[i as int]@ =~= parts@[i as int]@);
        }
        extend(&mut r, &parts[i]);
        i += 1;
    }
    assert(buffers(parts@).subrange(0, parts.len() as int) =~= buffers(parts@));
    r
}

/// `s` with every occurrence of `pat` taken out.
pub fn without(s: &Vec<char>, pat: &Vec<char>) -> (r: Vec<char>)
    ensures
        r@ == remove_all(s@, pat@),
{
    if pat.len() == 0 {
        let whole = slice(s, 0, s.len());
        assert(whole@ =~= s@);
        return whole;
    }
    let mut r: Vec<char> = Vec::new();
    let mut i: usize = 0;
    assert(s@.skip(0) =~= s@);
    assert(r@ + remove_all(s@, pat@) =~= remove_all(s@, pat@));
    while i < s.len()
        invariant
            i <= s.len(),
            pat.len() > 0,
            remove_all(s@, pat@) == r@ + remove_all(s@.skip(i as int), pat@),
        decreases s.len() - i,
    {
        let ghost rest = s@.skip(i as int);
        if matches_at(s, pat, i) {
            assert(rest.subrange(0, pat@.len() as int) =~= s@.subrange(
                i as int,
                i + pat@.len(),
            ));
            assert(rest.skip(pat@.len() as int) =~= s@.skip(i + pat@.len()));
            i += pat.len();
        } else {
            proof {
                if i + pat@.len() <= s@.len() {
                    assert(rest.subrange(0, pat@.len() as int) =~= s@.subrange(
                        i as int,
                        i + pat@.len(),
                    ));
                }
            }
            assert(!starts_with(rest, pat@));
            assert(rest.drop_first() =~= s@.skip(i + 1));
            let ghost kept = r@;
            r.push(s[i]);
            assert(r@ + remove_all(s@.skip(i + 1), pat@) =~= kept + (seq![s@[i as int]]
                + remove_all(s@.skip(i + 1), pat@)));
            i += 1;
        }
    }
    assert(s@.skip(s.len() as int) =~= Seq::<char>::empty());
    assert(r@ + Seq::<char>::empty() =~= r@);
    r
}

/// When nothing from position `k` on is `sep`, and `k` is the start of `s`
/// or follows a `sep`, the last segment is what stands from `k` on.
pub proof fn lemma_last_segment(s: Seq<char>, sep: char, k: int)
    requires
        0 <= k <= s.len(),
        forall|j: int| k <= j < s.len() ==> s[j] != sep,
        k == 0 || s[k - 1] == sep,
    ensures
        last_segment(s, sep) == s.skip(k),
    decreases s.len(),
{
    if s.len() == 0 {
        assert(s.skip(k) =~= s);
    } else if k == s.len() {
        assert(s.skip(k) =~= Seq::<char>::empty());
    } else {
        lemma_last_segment(s.drop_last(), sep, k);
        assert(s.skip(k) =~= s.drop_last().skip(k).push(s.last()));
    }
}

/// What follows the last `sep` in `s`.
pub fn tail_after(s: &Vec<char>, sep: char) -> (r: Vec<char>)
    ensures
        r@ == last_segment(s@, sep),
{
    let n: usize = s.len();
    let mut k: usize = n;
    while k > 0 && s[k - 1] != sep
        invariant
            k <= n,
            n == s.len(),
            forall|j: int| k <= j < n ==> s@[j] != sep,
        decreases k,
    {
        k -= 1;
    }
    proof {
        lemma_last_segment(s@, sep, k as int);
        assert(s@.skip(k as int) =~= s@.subrange(k as int, n as int));
    }
    slice(s, k, n)
}

/// What precedes the `n`-th `sep` in `s`.
pub fn head_before(s: &Vec<char>, sep: char, n: usize) -> (r: Vec<char>)
    ensures
        r@ == leading_segments(s@, sep, n as nat),
{
    let mut r: Vec<char> = Vec::new();
    if n == 0 {
        return r;
    }
    let mut left: usize = n;
    let mut i: usize = 0;
    assert(s@.skip(0) =~= s@);
    assert(r@ + leading_segments(s@, sep, n as nat) =~= leading_segments(s@, sep, n as nat));
    while i < s.len()
        invariant
            i <= s.len(),
            left >= 1,
            leading_segments(s@, sep, n as nat) == r@ + leading_segments(
                s@.skip(i as int),
                sep,
                left as nat,
            ),
        decreases s.len() - i,
    {
        let ghost rest = s@.skip(i as int);
        let ghost kept = r@;
        assert(rest.drop_first() =~= s@.skip(i + 1));
        if s[i] == sep {
            if left <= 1 {
                assert(kept + Seq::<char>::empty() =~= kept);
                return r;
            }
            left -= 1;
        }
        r.push(s[i]);
        assert(r@ + leading_segments(s@.skip(i + 1), sep, left as nat) =~= kept + (seq![
            s@[i as int],
        ] + leading_segments(s@.skip(i + 1), sep, left as nat)));
        i += 1;
    }
    assert(s@.skip(s.len() as int) =~= Seq::<char>::empty());
    assert(r@ + Seq::<char>::empty() =~= r@);
    r
}

/// An occurrence in `b` is an occurrence in `a + b`, further right by the
/// length of `a`.
pub proof fn lemma_occurs_after_prefix(a: Seq<char>, b: Seq<char>, pat: Seq<char>, i: int)
    requires
        occurs_at(b, pat, i),
    ensures
        occurs_at(a + b, pat, a.len() + i),
{
    assert((a + b).subrange(a.len() + i, a.len() + i + pat.len()) =~= b.subrange(
        i,
        i + pat.len(),
    ));
}

/// A joined text ends with its last piece.
pub proof fn lemma_join_ends_with_last(parts: Seq<Seq<char>>, sep: char)
    requires
        parts.len() > 0,
    ensures
        occurs_at(join(parts, sep), parts.last(), join(parts, sep).len() - parts.last().len()),
{
    let whole = join(parts, sep);
    let last = parts.last();
    if parts.len() == 1 {
        assert(whole.subrange(0, whole.len() as int) =~= whole);
    } else {
        assert(whole.subrange(whole.len() - last.len(), whole.len() as int) =~= last);
    }
}

/// An occurrence in `x`, then `c`, then `y` lies in `x`, lies in `y`, or
/// covers the `c` between them.
pub proof fn lemma_occurrence_around(x: Seq<char>, c: char, y: Seq<char>, pat: Seq<char>, i: int)
    requires
        occurs_at(x.push(c) + y, pat, i),
    ensures
        occurs_at(x, pat, i) || occurs_at(y, pat, i - x.len() - 1) || (i <= x.len() < i + pat.len()
            && pat[x.len() - i] == c),
{
    let whole = x.push(c) + y;
    let found = whole.subrange(i, i + pat.len());
    if i + pat.len() <= x.len() {
        assert(x.subrange(i, i + pat.len()) =~= found);
    } else if i > x.len() {
        assert(y.subrange(i - x.len() - 1, i - x.len() - 1 + pat.len()) =~= found);
    } else {
        assert(found[x.len() - i] == whole[x.len() as int]);
    }
}

/// Where a joined text holds `pat`, and `pat` is not empty and holds no
/// separator, one of the pieces holds it.
pub proof fn lemma_join_holds_in_piece(parts: Seq<Seq<char>>, sep: char, pat: Seq<char>)
    requires
        pat.len() > 0,
        !pat.contains(sep),
        contains(join(parts, sep), pat),
    ensures
        exists|k: int| 0 <= k < parts.len() && contains(#[trigger] parts[k], pat),
    decreases parts.len(),
{
    let i = choose|i: int| occurs_at(join(parts, sep), pat, i);
    if parts.len() == 0 {
        assert(false);
    } else if parts.len() == 1 {
        assert(contains(parts[0], pat));
    } else {
        let before = parts.drop_last();
        lemma_occurrence_around(join(before, sep), sep, parts.last(), pat, i);
        if occurs_at(join(before, sep), pat, i) {
            lemma_join_holds_in_piece(before, sep, pat);
            let k = choose|k: int| 0 <= k < before.len() && contains(#[trigger] before[k], pat);
            assert(parts[k] == before[k]);
        } else if occurs_at(parts.last(), pat, i - join(before, sep).len() - 1) {
            assert(contains(parts[parts.len() - 1], pat));
        } else {
            assert(pat.contains(pat[join(before, sep).len() - i]));
        }
    }
}

/// What a part holds, the whole holds: an occurrence in `b` is one in
/// `a + b + c`.
pub proof fn lemma_contains_inside(a: Seq<char>, b: Seq<char>, c: Seq<char>, pat: Seq<char>)
    requires
        contains(b, pat),
    ensures
        contains(a + b + c, pat),
{
    let i = choose|i: int| occurs_at(b, pat, i);
    assert((a + b + c).subrange(a.len() + i, a.len() + i + pat.len()) =~= b.subrange(
        i,
        i + pat.len(),
    ));
    assert(occurs_at(a + b + c, pat, a.len() + i));
}

/// What a piece holds, the joined text holds.
pub proof fn lemma_piece_holds_in_join(parts: Seq<Seq<char>>, sep: char, k: int, pat: Seq<char>)
    requires
        0 <= k < parts.len(),
        contains(parts[k], pat),
    ensures
        contains(join(parts, sep), pat),
    decreases parts.len(),
{
    let none = Seq::<char>::empty();
    if parts.len() == 1 {
    } else if k == parts.len() - 1 {
        lemma_contains_inside(join(parts.drop_last(), sep).push(sep), parts.last(), none, pat);
        assert(join(parts.drop_last(), sep).push(sep) + parts.last() + none =~= join(parts, sep));
    } else {
        lemma_piece_holds_in_join(parts.drop_last(), sep, k, pat);
        lemma_contains_inside(none, join(parts.drop_last(), sep), seq![sep] + parts.last(), pat);
        assert(none + join(parts.drop_last(), sep) + (seq![sep] + parts.last()) =~= join(
            parts,
            sep,
        ));
    }
}

} // verus!
