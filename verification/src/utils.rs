use rand::Rng;
use vstd::prelude::*;

verus! {

/// What `char::is_alphanumeric` returns for a character; the Unicode
/// properties behind it are not spelled out here.
pub uninterp spec fn char_alphanumeric(c: char) -> bool;

/// What `char::is_whitespace` returns for a character.
pub uninterp spec fn char_whitespace(c: char) -> bool;

/// What `char::is_numeric` returns for a character.
pub uninterp spec fn char_numeric(c: char) -> bool;

/// Relies on char::is_alphanumeric: the result depends on the character alone.
#[verifier::external_body]
pub(crate) fn is_alphanumeric_char(c: char) -> (r: bool)
    ensures
        r == char_alphanumeric(c),
{
    c.is_alphanumeric()
}

/// Relies on char::is_whitespace: the result depends on the character alone.
#[verifier::external_body]
pub(crate) fn is_whitespace_char(c: char) -> (r: bool)
    ensures
        r == char_whitespace(c),
{
    c.is_whitespace()
}

/// Relies on char::is_numeric: the result depends on the character alone.
#[verifier::external_body]
pub(crate) fn is_numeric_char(c: char) -> (r: bool)
    ensures
        r == char_numeric(c),
{
    c.is_numeric()
}

/// An ASCII letter or digit, as rand's `Alphanumeric` distribution draws them.
pub open spec fn ascii_alphanumeric(c: char) -> bool {
    (65 <= c as u32 && c as u32 <= 90) || (97 <= c as u32 && c as u32 <= 122) || (48 <= c as u32
        && c as u32 <= 57)
}

/// Relies on rand's `Alphanumeric` distribution: every sample is one of
/// `A-Z`, `a-z` or `0-9`; four samples are drawn.
#[verifier::external_body]
fn random_suffix() -> (r: String)
    ensures
        r@.len() == 4,
        forall|i: int| 0 <= i < r@.len() ==> ascii_alphanumeric(#[trigger] r@[i]),
{
    rand::thread_rng()
        .sample_iter(&rand::distributions::Alphanumeric)
        .take(4)
        .map(char::from)
        .collect()
}

/// Relies on core::mem::replace: moves `src` into `dest` and returns the
/// value that was there.
pub assume_specification<T>[ core::mem::replace ](dest: &mut T, src: T) -> (r: T)
    ensures
        *final(dest) == src,
        r == *old(dest),
;

/// Relies on String::push: appends exactly one character at the end.
#[verifier::external_body]
pub(crate) fn push_char(s: &mut String, c: char)
    ensures
        final(s)@ == old(s)@.push(c),
{
    s.push(c);
}

/// Prefixes `s` with a short random alphanumeric token and a dash, producing
/// a name that is unlikely to collide with anything already in the repository.
pub fn with_uuid(s: &str) -> (r: String)
    ensures
        r@.len() == s@.len() + 5,
        r@.skip(5) == s@,
        r@[4] == '-',
        forall|i: int| 0 <= i < 4 ==> ascii_alphanumeric(#[trigger] r@[i]),
{
    let mut r = random_suffix();
    proof {
        reveal_strlit("-");
    }
    r.append("-");
    r.append(s);
    assert(r@.skip(5) =~= s@);
    r
}

/// How one character of a commit message is normalized: letters and digits
/// are kept (ASCII uppercase mapped to lowercase), whitespace becomes `_`,
/// everything else becomes `-`.
pub open spec fn normalized_char(c: char) -> char {
    if char_alphanumeric(c) {
        if 65 <= c as u32 && c as u32 <= 90 {
            ((c as u8) + 32) as char
        } else {
            c
        }
    } else if char_whitespace(c) {
        '_'
    } else {
        '-'
    }
}

/// Converts a commit message to only contain lowercase characters,
/// underscores and dashes.
pub fn normalize_commit_msg(commit_msg: &str) -> (r: String)
    ensures
        r@ == commit_msg@.map(|i: int, c: char| normalized_char(c)),
{
    let n = commit_msg.unicode_len();
    let mut r = String::new();
    let mut i: usize = 0;
    while i < n
        invariant
            n == commit_msg@.len(),
            0 <= i <= n,
            r@ == commit_msg@.take(i as int).map(|j: int, c: char| normalized_char(c)),
        decreases n - i,
    {
        let c = commit_msg.get_char(i);
        let out: char = if is_alphanumeric_char(c) {
            let u = c as u32;
            if 65 <= u && u <= 90 {
                ((u + 32) as u8) as char
            } else {
                c
            }
        } else if is_whitespace_char(c) {
            '_'
        } else {
            '-'
        };
        push_char(&mut r, out);
        assert(r@ =~= commit_msg@.take(i + 1 as int).map(|j: int, c: char| normalized_char(c)));
        i = i + 1;
    }
    assert(commit_msg@.take(n as int) =~= commit_msg@);
    r
}

/// Builds a terminal hyperlink: `text` is displayed, `url` is the target.
pub fn display_link(text: &str, url: &str) -> (r: String)
    ensures
        r@ == "\u{1b}]8;;"@ + url@ + "\u{1b}\\"@ + text@ + "\u{1b}]8;;"@ + "\u{1b}\\"@,
{
    let mut r = String::from_str("\u{1b}]8;;");
    r.append(url);
    r.append("\u{1b}\\");
    r.append(text);
    r.append("\u{1b}]8;;");
    r.append("\u{1b}\\");
    r
}

/// Whether two pieces of text hold the same characters.
pub fn texts_equal(a: &str, b: &str) -> (r: bool)
    ensures
        r == (a@ == b@),
{
    let la = a.unicode_len();
    let lb = b.unicode_len();
    if la != lb {
        return false;
    }
    let r = starts_with_str(a, b);
    proof {
        if b@.is_prefix_of(a@) {
            assert(a@ =~= b@);
        }
        if a@ == b@ {
            assert(a@.subrange(0, b@.len() as int) =~= b@);
        }
    }
    r
}

/// Whether `sep` occurs in `s` starting at position `i`.
pub open spec fn is_match_at(s: Seq<char>, sep: Seq<char>, i: int) -> bool {
    0 <= i && i + sep.len() <= s.len() && s.subrange(i, i + sep.len()) == sep
}

/// The pieces of `s` between the leftmost non-overlapping occurrences of
/// `sep`. There is always at least one piece; `s` without any occurrence is
/// one piece.
pub open spec fn split_on(s: Seq<char>, sep: Seq<char>) -> Seq<Seq<char>>
    decreases s.len(),
{
    if sep.len() == 0 || s.len() == 0 {
        seq![s]
    } else if sep.is_prefix_of(s) {
        seq![Seq::<char>::empty()] + split_on(s.skip(sep.len() as int), sep)
    } else {
        let rest = split_on(s.skip(1), sep);
        seq![seq![s[0]] + rest[0]] + rest.skip(1)
    }
}

/// Splitting yields at least one piece.
pub proof fn lemma_split_on_len(s: Seq<char>, sep: Seq<char>)
    ensures
        split_on(s, sep).len() >= 1,
    decreases s.len(),
{
    if !(sep.len() == 0 || s.len() == 0) && !sep.is_prefix_of(s) {
        lemma_split_on_len(s.skip(1), sep);
    }
}

/// Without any occurrence of `sep`, the whole of `s` is the one piece.
pub proof fn lemma_split_on_no_match(s: Seq<char>, sep: Seq<char>)
    requires
        sep.len() >= 1,
        forall|k: int| !is_match_at(s, sep, k),
    ensures
        split_on(s, sep) == seq![s],
    decreases s.len(),
{
    if s.len() == 0 {
    } else {
        if sep.is_prefix_of(s) {
            assert(is_match_at(s, sep, 0));
        }
        let tail = s.skip(1);
        assert forall|k: int| !is_match_at(tail, sep, k) by {
            if is_match_at(tail, sep, k) {
                assert(s.subrange(k + 1, k + 1 + sep.len()) =~= tail.subrange(k, k + sep.len()));
                assert(is_match_at(s, sep, k + 1));
            }
        }
        lemma_split_on_no_match(tail, sep);
        let rest = split_on(tail, sep);
        assert(seq![s[0]] + rest[0] =~= s);
        assert(split_on(s, sep) =~= seq![s]);
    }
}

/// With the first occurrence of `sep` at `m`, the first piece is what stands
/// before `m` and the rest is the split of what follows the occurrence.
pub proof fn lemma_split_on_first_match(s: Seq<char>, sep: Seq<char>, m: int)
    requires
        sep.len() >= 1,
        is_match_at(s, sep, m),
        forall|k: int| 0 <= k < m ==> !is_match_at(s, sep, k),
    ensures
        split_on(s, sep) == seq![s.take(m)] + split_on(s.skip(m + sep.len()), sep),
    decreases m,
{
    if m == 0 {
        assert(s.subrange(0, sep.len() as int) == sep);
        assert(sep.is_prefix_of(s));
        assert(s.take(0) =~= Seq::<char>::empty());
        assert(split_on(s, sep) =~= seq![s.take(0)] + split_on(s.skip(sep.len() as int), sep));
    } else {
        if sep.is_prefix_of(s) {
            assert(is_match_at(s, sep, 0));
        }
        let tail = s.skip(1);
        assert(tail.subrange(m - 1, m - 1 + sep.len()) =~= s.subrange(m, m + sep.len()));
        assert(is_match_at(tail, sep, m - 1));
        assert forall|k: int| 0 <= k < m - 1 implies !is_match_at(tail, sep, k) by {
            if is_match_at(tail, sep, k) {
                assert(s.subrange(k + 1, k + 1 + sep.len()) =~= tail.subrange(k, k + sep.len()));
                assert(is_match_at(s, sep, k + 1));
            }
        }
        lemma_split_on_first_match(tail, sep, m - 1);
        let rest = split_on(tail, sep);
        lemma_split_on_len(tail.skip(m - 1 + sep.len() as int), sep);
        assert(rest == seq![tail.take(m - 1)] + split_on(tail.skip(m - 1 + sep.len()), sep));
        assert(seq![s[0]] + rest[0] =~= s.take(m));
        assert(tail.skip(m - 1 + sep.len()) =~= s.skip(m + sep.len()));
        assert(split_on(s, sep) =~= seq![s.take(m)] + split_on(s.skip(m + sep.len()), sep));
    }
}

/// Whether `sep` occurs in `s` at position `i`, checked character by
/// character.
pub fn is_match_at_exec(s: &str, sep: &str, i: usize) -> (r: bool)
    requires
        i + sep@.len() <= s@.len(),
        s@.len() <= usize::MAX,
    ensures
        r == is_match_at(s@, sep@, i as int),
{
    let m = sep.unicode_len();
    let mut j: usize = 0;
    while j < m
        invariant
            m == sep@.len(),
            i + m <= s@.len(),
            s@.len() <= usize::MAX,
            0 <= j <= m,
            forall|k: int| 0 <= k < j ==> s@[i + k] == sep@[k],
        decreases m - j,
    {
        if s.get_char(i + j) != sep.get_char(j) {
            assert(s@.subrange(i as int, i + sep@.len()) != sep@) by {
                assert(s@.subrange(i as int, i + sep@.len())[j as int] != sep@[j as int]);
            }
            return false;
        }
        j = j + 1;
    }
    assert(s@.subrange(i as int, i + sep@.len()) =~= sep@);
    true
}

/// Splits `s` on every occurrence of `sep`, leftmost first.
pub fn split_str(s: &str, sep: &str) -> (r: Vec<String>)
    requires
        sep@.len() >= 1,
    ensures
        r.deep_view() == split_on(s@, sep@),
{
    let s_len = s.unicode_len();
    let sep_len = sep.unicode_len();
    let mut pieces: Vec<String> = Vec::new();
    let mut start: usize = 0;
    let mut i: usize = 0;
    proof {
        assert(s@.skip(0) =~= s@);
        assert(pieces.deep_view() =~= Seq::<Seq<char>>::empty());
        assert(pieces.deep_view() + split_on(s@, sep@) =~= split_on(s@, sep@));
    }
    while sep_len <= s_len && i <= s_len - sep_len
        invariant
            s_len == s@.len(),
            sep_len == sep@.len(),
            sep_len >= 1,
            0 <= start <= i <= s_len,
            pieces.deep_view() + split_on(s@.skip(start as int), sep@) == split_on(s@, sep@),
            forall|k: int| 0 <= k < i - start ==> !is_match_at(s@.skip(start as int), sep@, k),
        decreases s_len - i,
    {
        if is_match_at_exec(s, sep, i) {
            let ghost old_dv = pieces.deep_view();
            pieces.push(String::from_str(s.substring_char(start, i)));
            proof {
                let t = s@.skip(start as int);
                assert(t.subrange(i - start, i - start + sep@.len()) =~= s@.subrange(
                    i as int,
                    i + sep@.len(),
                ));
                assert(is_match_at(t, sep@, i - start));
                lemma_split_on_first_match(t, sep@, i - start);
                assert(t.take(i - start) =~= s@.subrange(start as int, i as int));
                assert(t.skip(i - start + sep@.len()) =~= s@.skip(i + sep@.len()));
                assert(pieces.deep_view() =~~= old_dv + seq![t.take(i - start)]);
                assert(pieces.deep_view() + split_on(s@.skip(i + sep@.len()), sep@) =~= old_dv + (
                seq![t.take(i - start)] + split_on(t.skip(i - start + sep@.len()), sep@)));
            }
            start = i + sep_len;
            i = start;
        } else {
            proof {
                let t = s@.skip(start as int);
                assert(s@.subrange(i as int, i + sep@.len()) =~= t.subrange(
                    i - start,
                    i - start + sep@.len(),
                ));
            }
            i = i + 1;
        }
    }
    let ghost last_dv = pieces.deep_view();
    pieces.push(String::from_str(s.substring_char(start, s_len)));
    proof {
        let t = s@.skip(start as int);
        assert forall|k: int| !is_match_at(t, sep@, k) by {
            if is_match_at(t, sep@, k) && k >= i - start {
                assert(k + sep@.len() > t.len());
            }
        }
        lemma_split_on_no_match(t, sep@);
        assert(t =~= s@.subrange(start as int, s_len as int));
        assert(pieces.deep_view() =~~= last_dv + seq![t]);
        assert(pieces.deep_view() =~= split_on(s@, sep@));
    }
    pieces
}

/// The decimal digit `d` as a character.
pub open spec fn dec_digit(d: int) -> char {
    ((48 + d) as u8) as char
}

/// The usual decimal writing of `n`, most significant digit first.
pub open spec fn dec_rep(n: int) -> Seq<char>
    decreases n,
{
    if n < 10 {
        seq![dec_digit(n)]
    } else {
        dec_rep(n / 10).push(dec_digit(n % 10))
    }
}

/// Writes a number in decimal.
pub fn u64_to_string(n: u64) -> (r: String)
    ensures
        r@ == dec_rep(n as int),
    decreases n,
{
    if n < 10 {
        let mut r = String::new();
        push_char(&mut r, ((48 + n) as u8) as char);
        assert(r@ =~= seq![dec_digit(n as int)]);
        r
    } else {
        let mut r = u64_to_string(n / 10);
        push_char(&mut r, ((48 + (n % 10)) as u8) as char);
        r
    }
}

/// All pieces run together, with nothing between them.
pub open spec fn concat_pieces(ss: Seq<Seq<char>>) -> Seq<char>
    decreases ss.len(),
{
    if ss.len() == 0 {
        Seq::<char>::empty()
    } else {
        ss[0] + concat_pieces(ss.skip(1))
    }
}

/// One more piece concatenated at the end.
pub proof fn lemma_concat_take_snoc(ss: Seq<Seq<char>>, i: int)
    requires
        0 <= i < ss.len(),
    ensures
        concat_pieces(ss.take(i + 1)) == concat_pieces(ss.take(i)) + ss[i],
    decreases i,
{
    if i == 0 {
        assert(ss.take(1)[0] == ss[0]);
        assert(ss.take(1).skip(1) =~= Seq::<Seq<char>>::empty());
        assert(ss.take(0) =~= Seq::<Seq<char>>::empty());
        assert(concat_pieces(ss.take(1)) =~= concat_pieces(ss.take(0)) + ss[0]);
    } else {
        let tail = ss.skip(1);
        lemma_concat_take_snoc(tail, i - 1);
        assert(ss.take(i + 1).skip(1) =~= tail.take(i));
        assert(ss.take(i).skip(1) =~= tail.take(i - 1));
        assert(concat_pieces(ss.take(i + 1)) =~= concat_pieces(ss.take(i)) + ss[i]);
    }
}

/// The pieces run together with `sep` between each two neighbours.
pub open spec fn join_with(ss: Seq<Seq<char>>, sep: Seq<char>) -> Seq<char>
    decreases ss.len(),
{
    if ss.len() == 0 {
        Seq::<char>::empty()
    } else if ss.len() == 1 {
        ss[0]
    } else {
        ss[0] + sep + join_with(ss.skip(1), sep)
    }
}

/// One more piece joined at the end.
pub proof fn lemma_join_take_snoc(ss: Seq<Seq<char>>, sep: Seq<char>, i: int)
    requires
        1 <= i < ss.len(),
    ensures
        join_with(ss.take(i + 1), sep) == join_with(ss.take(i), sep) + sep + ss[i],
    decreases i,
{
    if i == 1 {
        assert(ss.take(2)[0] == ss[0]);
        assert(ss.take(2).skip(1) =~= seq![ss[1]]);
        assert(join_with(seq![ss[1]], sep) == ss[1]);
        assert(ss.take(1)[0] == ss[0]);
        assert(join_with(ss.take(2), sep) =~= join_with(ss.take(1), sep) + sep + ss[1]);
    } else {
        let tail = ss.skip(1);
        lemma_join_take_snoc(tail, sep, i - 1);
        assert(ss.take(i + 1).skip(1) =~= tail.take(i));
        assert(ss.take(i).skip(1) =~= tail.take(i - 1));
        assert(ss.take(i + 1)[0] == ss[0]);
        assert(ss.take(i)[0] == ss[0]);
        assert(join_with(ss.take(i + 1), sep) =~= join_with(ss.take(i), sep) + sep + ss[i]);
    }
}

/// `s` with every occurrence of `pat` replaced by `rep`: the pieces between
/// occurrences, joined with the replacement.
pub open spec fn replaced(s: Seq<char>, pat: Seq<char>, rep: Seq<char>) -> Seq<char> {
    join_with(split_on(s, pat), rep)
}

/// Replaces every occurrence of `pat` in `s` by `rep`.
pub fn replace_str(s: &str, pat: &str, rep: &str) -> (r: String)
    requires
        pat@.len() >= 1,
    ensures
        r@ == replaced(s@, pat@, rep@),
{
    let pieces = split_str(s, pat);
    let ghost dv = pieces.deep_view();
    proof {
        lemma_split_on_len(s@, pat@);
    }
    let n = pieces.len();
    let mut r = String::from_str(pieces[0].as_str());
    assert(dv.take(1)[0] == dv[0]);
    assert(r@ =~= join_with(dv.take(1), rep@));
    let mut i: usize = 1;
    while i < n
        invariant
            n == dv.len(),
            dv == pieces.deep_view(),
            n == pieces.len(),
            1 <= i <= n,
            r@ == join_with(dv.take(i as int), rep@),
        decreases n - i,
    {
        r.append(rep);
        r.append(pieces[i].as_str());
        proof {
            lemma_join_take_snoc(dv, rep@, i as int);
        }
        i = i + 1;
    }
    assert(dv.take(n as int) =~= dv);
    r
}

/// Whether `p` is a prefix of `s`, character by character.
pub fn starts_with_str(s: &str, p: &str) -> (r: bool)
    ensures
        r == p@.is_prefix_of(s@),
{
    let sl = s.unicode_len();
    let pl = p.unicode_len();
    if pl > sl {
        assert(!p@.is_prefix_of(s@));
        return false;
    }
    let mut i: usize = 0;
    while i < pl
        invariant
            pl == p@.len(),
            sl == s@.len(),
            pl <= sl,
            0 <= i <= pl,
            forall|j: int| 0 <= j < i ==> s@[j] == p@[j],
        decreases pl - i,
    {
        if s.get_char(i) != p.get_char(i) {
            assert(!p@.is_prefix_of(s@));
            return false;
        }
        i = i + 1;
    }
    assert(p@ =~= s@.subrange(0, pl as int));
    true
}

} // verus!
