//! Text building blocks shared by the composers: joining parts with a
//! separator, replacing spaces by hyphens, stripping a prefix and lowercasing.

use vstd::prelude::*;
use vstd::std_specs::iter::IteratorSpec;
use vstd::string::*;

verus! {

/// The character sequences of a sequence of strings, in the same order.
pub open spec fn texts(items: Seq<String>) -> Seq<Seq<char>> {
    Seq::new(items.len(), |i: int| items[i]@)
}

/// `parts` written one after another with `sep` between neighbours.
pub open spec fn join(parts: Seq<Seq<char>>, sep: Seq<char>) -> Seq<char>
    decreases parts.len(),
{
    if parts.len() == 0 {
        Seq::empty()
    } else if parts.len() == 1 {
        parts[0]
    } else {
        parts[0] + sep + join(parts.drop_first(), sep)
    }
}

/// `s` with every space replaced by a hyphen; all other characters stay.
pub open spec fn hyphenate(s: Seq<char>) -> Seq<char> {
    Seq::new(s.len(), |i: int| if s[i] == ' ' { '-' } else { s[i] })
}

/// Whether `s` starts with `prefix`.
pub open spec fn has_prefix(s: Seq<char>, prefix: Seq<char>) -> bool {
    prefix.len() <= s.len() && s.subrange(0, prefix.len() as int) == prefix
}

/// `s` without one leading `prefix`, or `s` itself where it does not start with it.
pub open spec fn strip_prefix(s: Seq<char>, prefix: Seq<char>) -> Seq<char> {
    if has_prefix(s, prefix) {
        s.subrange(prefix.len() as int, s.len() as int)
    } else {
        s
    }
}

/// The Unicode lowercase form of a text, as the standard library computes it.
pub uninterp spec fn lowercase_of(s: Seq<char>) -> Seq<char>;

/// `str::to_lowercase` of the standard library: the result is the lowercase
/// form of the argument, a function of the argument's characters alone. Nothing
/// more is claimed of it.
pub assume_specification[ str::to_lowercase ](s: &str) -> (lowered: String)
    ensures
        lowered@ == lowercase_of(s@),
;

/// `String::push` of the standard library: the character is appended at the end.
pub assume_specification[ String::push ](s: &mut String, c: char)
    ensures
        final(s)@ == old(s)@.push(c),
;

/// Joining one more part onto a non-empty list puts the separator and the part
/// at the end; onto an empty list, the part alone.
pub proof fn lemma_join_push(parts: Seq<Seq<char>>, last: Seq<char>, sep: Seq<char>)
    ensures
        join(parts.push(last), sep) == if parts.len() == 0 {
            last
        } else {
            join(parts, sep) + sep + last
        },
    decreases parts.len(),
{
    let all = parts.push(last);
    if parts.len() == 0 {
        assert(all[0] == last);
    } else {
        assert(all[0] == parts[0]);
        assert(all.drop_first() =~= parts.drop_first().push(last));
        lemma_join_push(parts.drop_first(), last, sep);
        if parts.len() == 1 {
            assert(join(parts.drop_first(), sep) =~= Seq::<char>::empty());
            assert(join(all, sep) =~= parts[0] + sep + last);
        } else {
            assert(join(all, sep) =~= join(parts, sep) + sep + last);
        }
    }
}

/// Joining two non-empty lists laid end to end is joining each of them and
/// putting the separator between the two results.
pub proof fn lemma_join_concat(front: Seq<Seq<char>>, back: Seq<Seq<char>>, sep: Seq<char>)
    requires
        front.len() > 0,
        back.len() > 0,
    ensures
        join(front + back, sep) == join(front, sep) + sep + join(back, sep),
    decreases back.len(),
{
    let last = back.last();
    if back.len() == 1 {
        assert(front + back =~= front.push(last));
        lemma_join_push(front, last, sep);
    } else {
        let init = back.drop_last();
        lemma_join_concat(front, init, sep);
        assert(front + back =~= (front + init).push(last));
        lemma_join_push(front + init, last, sep);
        assert(back =~= init.push(last));
        lemma_join_push(init, last, sep);
        assert(join(front, sep) + sep + join(init, sep) + sep + last =~= join(front, sep) + sep + (
        join(init, sep) + sep + last));
    }
}

/// Joins `parts` with `sep` between neighbours.
pub fn join_texts(parts: &Vec<String>, sep: &str) -> (out: String)
    ensures
        out@ == join(texts(parts@), sep@),
{
    let mut out = String::new();
    let mut i: usize = 0;
    while i < parts.len()
        invariant
            i <= parts.len(),
            out@ == join(texts(parts@).take(i as int), sep@),
        decreases parts.len() - i,
    {
        proof {
            let done = texts(parts@).take(i as int);
            assert(texts(parts@).take(i + 1) =~= done.push(parts@[i as int]@));
            lemma_join_push(done, parts@[i as int]@, sep@);
        }
        if i > 0 {
            out.append(sep);
        }
        out.append(parts[i].as_str());
        i = i + 1;
    }
    proof {
        assert(texts(parts@).take(parts.len() as int) =~= texts(parts@));
    }
    out
}

/// Whether two texts hold the same characters.
pub fn same_text(a: &str, b: &str) -> (same: bool)
    ensures
        same == (a@ == b@),
{
    broadcast use vstd::string::group_string_axioms;

    let mut left = a.chars();
    let mut right = b.chars();
    let ghost mut seen: int = 0;
    loop
        invariant
            0 <= seen <= a@.len(),
            seen <= b@.len(),
            left.obeys_prophetic_iter_laws(),
            right.obeys_prophetic_iter_laws(),
            left.decrease() is Some,
            left.remaining() == a@.subrange(seen, a@.len() as int),
            right.remaining() == b@.subrange(seen, b@.len() as int),
            a@.take(seen) == b@.take(seen),
        decreases left.decrease()->0,
    {
        let x = left.next();
        let y = right.next();
        match x {
            Some(c) => {
                match y {
                    Some(d) => {
                        if c != d {
                            assert(a@[seen] != b@[seen]);
                            return false;
                        }
                        proof {
                            assert(a@.take(seen + 1) =~= a@.take(seen).push(c));
                            assert(b@.take(seen + 1) =~= b@.take(seen).push(d));
                            assert(a@.subrange(seen, a@.len() as int).drop_first()
                                =~= a@.subrange(seen + 1, a@.len() as int));
                            assert(b@.subrange(seen, b@.len() as int).drop_first()
                                =~= b@.subrange(seen + 1, b@.len() as int));
                            seen = seen + 1;
                        }
                    },
                    None => {
                        assert(a@.len() != b@.len());
                        return false;
                    },
                }
            },
            None => {
                proof {
                    assert(a@.take(seen) =~= a@);
                    if y is None {
                        assert(b@.take(seen) =~= b@);
                    }
                }
                return y.is_none();
            },
        }
    }
}

/// Whether `id` occurs among `items`.
pub fn selects(items: &[String], id: &str) -> (found: bool)
    ensures
        found == texts(items@).contains(id@),
{
    let mut i: usize = 0;
    while i < items.len()
        invariant
            i <= items.len(),
            forall|k: int| 0 <= k < i ==> texts(items@)[k] != id@,
        decreases items.len() - i,
    {
        if same_text(items[i].as_str(), id) {
            assert(texts(items@)[i as int] == id@);
            return true;
        }
        i = i + 1;
    }
    false
}

/// Replaces every space of `s` by a hyphen.
pub fn replace_spaces(s: &str) -> (out: String)
    ensures
        out@ == hyphenate(s@),
{
    broadcast use vstd::string::group_string_axioms;

    let mut out = String::new();
    let mut it = s.chars();
    let ghost mut seen: int = 0;
    loop
        invariant
            0 <= seen <= s@.len(),
            it.obeys_prophetic_iter_laws(),
            it.decrease() is Some,
            it.remaining() == s@.subrange(seen, s@.len() as int),
            out@ == hyphenate(s@).take(seen),
        ensures
            out@ == hyphenate(s@),
        decreases it.decrease()->0,
    {
        match it.next() {
            Some(c) => {
                out.push(if c == ' ' { '-' } else { c });
                proof {
                    assert(c == s@[seen]);
                    assert(hyphenate(s@).take(seen + 1) =~= hyphenate(s@).take(seen).push(
                        hyphenate(s@)[seen],
                    ));
                    assert(s@.subrange(seen, s@.len() as int).drop_first() =~= s@.subrange(
                        seen + 1,
                        s@.len() as int,
                    ));
                    seen = seen + 1;
                }
            },
            None => {
                proof {
                    assert(hyphenate(s@).take(seen) =~= hyphenate(s@));
                }
                break ;
            },
        }
    }
    out
}

} // verus!
