//! Text handling: decoding received bytes, and splitting command lines into
//! words.
use vstd::prelude::*;
use vstd::utf8::valid_utf8;
use vstd::utf8::decode_utf8;

verus! {

/// What `String::from_utf8_lossy` makes of `bytes`.
pub uninterp spec fn spec_utf8_lossy(bytes: Seq<u8>) -> Seq<char>;

/// `String::from_utf8_lossy`: decodes `bytes`, each invalid sequence replaced
/// by U+FFFD. Trusted: the result is the named function of the bytes, and on
/// valid UTF-8 it is the decoded text, as std's documentation says.
#[verifier::external_body]
pub fn utf8_lossy(bytes: &[u8]) -> (s: String)
    ensures
        s@ == spec_utf8_lossy(bytes@),
        valid_utf8(bytes@) ==> s@ == decode_utf8(bytes@),
{
    String::from_utf8_lossy(bytes).into_owned()
}

/// `String::push`. Trusted: appends the character, as std's documentation
/// says.
#[verifier::external_body]
pub fn push_char(s: &mut String, c: char)
    ensures
        final(s)@ == old(s)@.push(c),
{
    s.push(c)
}

/// A copy of `s`.
pub fn copy_string(s: &String) -> (r: String)
    ensures
        r@ == s@,
{
    s.clone()
}

/// `a` followed by `b`.
pub fn joined(a: &str, b: &str) -> (r: String)
    ensures
        r@ == a@ + b@,
{
    let mut r = a.to_owned();
    r.append(b);
    r
}

/// ASCII whitespace as `u8::is_ascii_whitespace` has it: space, tab, line
/// feed, form feed and carriage return.
pub open spec fn is_ascii_space(c: char) -> bool {
    c == ' ' || c == '\t' || c == '\n' || c == '\x0C' || c == '\r'
}

pub fn is_space(c: char) -> (b: bool)
    ensures
        b == is_ascii_space(c),
{
    c == ' ' || c == '\t' || c == '\n' || c == '\x0C' || c == '\r'
}

/// The words of `s` seen so far, and the word still open at its end.
pub open spec fn words_scan(s: Seq<char>) -> (Seq<Seq<char>>, Seq<char>)
    decreases s.len(),
{
    if s.len() == 0 {
        (Seq::empty(), Seq::empty())
    } else {
        let (done, open) = words_scan(s.drop_last());
        let c = s.last();
        if is_ascii_space(c) {
            if open.len() > 0 {
                (done.push(open), Seq::empty())
            } else {
                (done, open)
            }
        } else {
            (done, open.push(c))
        }
    }
}

/// The maximal runs of non-whitespace characters of `s`, in order: what
/// `split_ascii_whitespace` yields.
pub open spec fn ascii_words(s: Seq<char>) -> Seq<Seq<char>> {
    let (done, open) = words_scan(s);
    if open.len() > 0 {
        done.push(open)
    } else {
        done
    }
}

/// No word is empty, and no word holds whitespace.
pub open spec fn words_well_formed(ws: Seq<Seq<char>>) -> bool {
    forall|i: int|
        0 <= i < ws.len() ==> #[trigger] ws[i].len() > 0 && forall|j: int|
            0 <= j < ws[i].len() ==> !is_ascii_space(#[trigger] ws[i][j])
}

proof fn lemma_words_scan_well_formed(s: Seq<char>)
    ensures
        words_well_formed(words_scan(s).0),
        forall|j: int|
            0 <= j < words_scan(s).1.len() ==> !is_ascii_space(#[trigger] words_scan(s).1[j]),
    decreases s.len(),
{
    if s.len() > 0 {
        lemma_words_scan_well_formed(s.drop_last());
    }
}

/// The words of a command line are non-empty and hold no whitespace.
pub proof fn lemma_ascii_words_well_formed(s: Seq<char>)
    ensures
        words_well_formed(ascii_words(s)),
{
    lemma_words_scan_well_formed(s);
}

/// The words joined, one space between two.
pub open spec fn join_words(ws: Seq<Seq<char>>) -> Seq<char>
    decreases ws.len(),
{
    if ws.len() == 0 {
        Seq::empty()
    } else if ws.len() == 1 {
        ws[0]
    } else {
        join_words(ws.drop_last()) + seq![' '] + ws.last()
    }
}

/// Only ASCII whitespace.
pub open spec fn all_space(s: Seq<char>) -> bool {
    forall|i: int| 0 <= i < s.len() ==> is_ascii_space(#[trigger] s[i])
}

proof fn lemma_scan_space(s: Seq<char>, sp: Seq<char>)
    requires
        all_space(sp),
        sp.len() > 0,
    ensures
        words_scan(s + sp) == (if words_scan(s).1.len() > 0 {
            words_scan(s).0.push(words_scan(s).1)
        } else {
            words_scan(s).0
        }, Seq::<char>::empty()),
    decreases sp.len(),
{
    let t = s + sp;
    assert(t.drop_last() =~= s + sp.drop_last());
    assert(t.last() == sp.last());
    if sp.len() == 1 {
        assert(sp.drop_last() =~= Seq::<char>::empty());
        assert(s + sp.drop_last() =~= s);
    } else {
        lemma_scan_space(s, sp.drop_last());
    }
}

proof fn lemma_scan_all_space(sp: Seq<char>)
    requires
        all_space(sp),
    ensures
        words_scan(sp) == (Seq::<Seq<char>>::empty(), Seq::<char>::empty()),
    decreases sp.len(),
{
    if sp.len() > 0 {
        lemma_scan_all_space(sp.drop_last());
    }
}

proof fn lemma_scan_word(s: Seq<char>, w: Seq<char>)
    requires
        words_scan(s).1.len() == 0,
        forall|j: int| 0 <= j < w.len() ==> !is_ascii_space(#[trigger] w[j]),
    ensures
        words_scan(s + w) == (words_scan(s).0, w),
    decreases w.len(),
{
    if w.len() == 0 {
        assert(s + w =~= s);
    } else {
        let t = s + w;
        assert(t.drop_last() =~= s + w.drop_last());
        assert(t.last() == w.last());
        lemma_scan_word(s, w.drop_last());
        assert(w.drop_last().push(w.last()) =~= w);
    }
}

proof fn lemma_scan_joined(pre: Seq<char>, ws: Seq<Seq<char>>)
    requires
        all_space(pre),
        words_well_formed(ws),
        ws.len() > 0,
    ensures
        words_scan(pre + join_words(ws)) == (ws.drop_last(), ws.last()),
    decreases ws.len(),
{
    lemma_scan_all_space(pre);
    if ws.len() == 1 {
        assert(ws[0].len() > 0);
        lemma_scan_word(pre, ws[0]);
        assert(ws.drop_last() =~= Seq::<Seq<char>>::empty());
    } else {
        let rest = ws.drop_last();
        assert forall|i: int| 0 <= i < rest.len() implies #[trigger] rest[i].len() > 0 && forall|j: int|
            0 <= j < rest[i].len() ==> !is_ascii_space(#[trigger] rest[i][j]) by {
            assert(rest[i] == ws[i]);
        }
        lemma_scan_joined(pre, rest);
        let a = pre + join_words(rest);
        assert(rest.last().len() > 0) by {
            assert(rest.last() == ws[ws.len() - 2]);
        }
        lemma_scan_space(a, seq![' ']);
        assert(rest.drop_last().push(rest.last()) =~= rest);
        let b = a + seq![' '];
        assert(ws.last() == ws[ws.len() - 1]);
        lemma_scan_word(b, ws.last());
        assert(pre + join_words(ws) =~= b + ws.last());
    }
}

/// Joining the words of a command line with single spaces, with any ASCII
/// whitespace before and after, gives back the same words: `get_command`
/// makes the same program and arguments of both lines.
pub proof fn lemma_rejoined_words(s: Seq<char>, pre: Seq<char>, post: Seq<char>)
    requires
        all_space(pre),
        all_space(post),
    ensures
        ascii_words(pre + join_words(ascii_words(s)) + post) == ascii_words(s),
{
    let ws = ascii_words(s);
    lemma_ascii_words_well_formed(s);
    if ws.len() == 0 {
        assert(pre + join_words(ws) + post =~= pre + post);
        assert(all_space(pre + post)) by {
            assert forall|i: int| 0 <= i < (pre + post).len() implies is_ascii_space(
                #[trigger] (pre + post)[i],
            ) by {
                if i < pre.len() {
                    assert((pre + post)[i] == pre[i]);
                } else {
                    assert((pre + post)[i] == post[i - pre.len()]);
                }
            }
        }
        lemma_scan_all_space(pre + post);
    } else {
        lemma_scan_joined(pre, ws);
        let a = pre + join_words(ws);
        if post.len() > 0 {
            lemma_scan_space(a, post);
            assert(ws.drop_last().push(ws.last()) =~= ws);
        } else {
            assert(a + post =~= a);
            assert(ws.drop_last().push(ws.last()) =~= ws);
        }
    }
}

/// The separators of command words are exactly space, tab, line feed, form
/// feed and carriage return; every other character belongs to a word.
pub proof fn lemma_separators(c: char)
    ensures
        is_ascii_space(c) <==> (c == ' ' || c == '\t' || c == '\n' || c == '\x0C' || c == '\r'),
{
}

/// A line without space, tab, line feed, form feed or carriage return is a
/// single word, whatever else it holds (`=`, `-`, `+`, `.`, `/`, ...).
pub proof fn lemma_unseparated_is_one_word(w: Seq<char>)
    requires
        w.len() > 0,
        forall|j: int|
            0 <= j < w.len() ==> #[trigger] w[j] != ' ' && w[j] != '\t' && w[j] != '\n' && w[j]
                != '\x0C' && w[j] != '\r',
    ensures
        ascii_words(w) == seq![w],
{
    lemma_scan_word(Seq::empty(), w);
    assert(Seq::<char>::empty() + w =~= w);
}

/// Two such words around one separator are two words.
pub proof fn lemma_two_words(a: Seq<char>, c: char, b: Seq<char>)
    requires
        a.len() > 0,
        b.len() > 0,
        c == ' ' || c == '\t' || c == '\n' || c == '\x0C' || c == '\r',
        forall|j: int|
            0 <= j < a.len() ==> #[trigger] a[j] != ' ' && a[j] != '\t' && a[j] != '\n' && a[j]
                != '\x0C' && a[j] != '\r',
        forall|j: int|
            0 <= j < b.len() ==> #[trigger] b[j] != ' ' && b[j] != '\t' && b[j] != '\n' && b[j]
                != '\x0C' && b[j] != '\r',
    ensures
        ascii_words(a + seq![c] + b) == seq![a, b],
{
    lemma_scan_word(Seq::empty(), a);
    assert(Seq::<char>::empty() + a =~= a);
    lemma_scan_space(a, seq![c]);
    lemma_scan_word(a + seq![c], b);
}

/// Views of a list of strings.
pub open spec fn string_views(v: Seq<String>) -> Seq<Seq<char>> {
    v.map_values(|s: String| s@)
}

/// Splits `s` at ASCII whitespace into its words.
pub fn ascii_words_of(s: &str) -> (words: Vec<String>)
    ensures
        string_views(words@) == ascii_words(s@),
{
    let mut done: Vec<String> = Vec::new();
    let mut open = String::new();
    let ghost mut seen: Seq<char> = Seq::empty();
    for c in it: s.chars()
        invariant
            it.seq() == s@,
            seen == it.seq().take(it.index()),
            (string_views(done@), open@) == words_scan(seen),
    {
        proof {
            assert(seen.push(c).drop_last() =~= seen);
        }
        if is_space(c) {
            if !open.as_str().is_empty() {
                done.push(open);
                open = String::new();
                proof {
                    assert(string_views(done@) =~= words_scan(seen).0.push(words_scan(seen).1));
                }
            }
        } else {
            push_char(&mut open, c);
        }
        proof {
            seen = seen.push(c);
        }
    }
    assert(seen =~= s@);
    if !open.as_str().is_empty() {
        done.push(open);
        proof {
            assert(string_views(done@) =~= ascii_words(s@));
        }
    }
    done
}

} // verus!
