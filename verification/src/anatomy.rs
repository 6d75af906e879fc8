//! How the text of a URL falls into parts, by the generic syntax of URLs:
//! a scheme, an authority, a path, a query and a fragment; and how a query
//! falls into pairs of a name and a value.
//!
//! This is a model for stating what a URL says. It reads text that is
//! already a URL and does not decide whether a text is one.

use vstd::prelude::*;

verus! {

/// The length of the longest prefix of `s` in which no character of `stops`
/// occurs.
pub open spec fn span(s: Seq<char>, stops: Set<char>) -> int
    decreases s.len(),
{
    if s.len() == 0 || stops.contains(s[0]) {
        0
    } else {
        1 + span(s.drop_first(), stops)
    }
}

/// Whether no character of `stops` occurs in `s`.
pub open spec fn free_of(s: Seq<char>, stops: Set<char>) -> bool {
    forall|i: int| 0 <= i < s.len() ==> !stops.contains(#[trigger] s[i])
}

/// The characters that end a scheme.
pub open spec fn scheme_stops() -> Set<char> {
    set![':', '/', '?', '#']
}

/// The characters that end an authority.
pub open spec fn authority_stops() -> Set<char> {
    set!['/', '?', '#']
}

/// The characters that end a path.
pub open spec fn path_stops() -> Set<char> {
    set!['?', '#']
}

/// The character that ends a query.
pub open spec fn query_stops() -> Set<char> {
    set!['#']
}

/// Whether the text begins with a scheme and a colon.
pub open spec fn has_scheme(url: Seq<char>) -> bool {
    let n = span(url, scheme_stops());
    0 < n < url.len() && url[n] == ':'
}

/// The scheme, without its colon.
pub open spec fn scheme_of(url: Seq<char>) -> Seq<char> {
    if has_scheme(url) {
        url.take(span(url, scheme_stops()))
    } else {
        Seq::empty()
    }
}

/// What follows the scheme and its colon.
pub open spec fn after_scheme(url: Seq<char>) -> Seq<char> {
    if has_scheme(url) {
        url.skip(span(url, scheme_stops()) + 1)
    } else {
        url
    }
}

/// Whether an authority follows the scheme: the text goes on with `//`.
pub open spec fn has_authority(url: Seq<char>) -> bool {
    let rest = after_scheme(url);
    rest.len() >= 2 && rest[0] == '/' && rest[1] == '/'
}

/// The authority, without the `//` before it. Where it holds neither `@` nor
/// `:`, it is the host.
pub open spec fn authority_of(url: Seq<char>) -> Seq<char> {
    if has_authority(url) {
        let rest = after_scheme(url).skip(2);
        rest.take(span(rest, authority_stops()))
    } else {
        Seq::empty()
    }
}

/// What follows the authority.
pub open spec fn after_authority(url: Seq<char>) -> Seq<char> {
    if has_authority(url) {
        let rest = after_scheme(url).skip(2);
        rest.skip(span(rest, authority_stops()))
    } else {
        after_scheme(url)
    }
}

/// The path.
pub open spec fn path_of(url: Seq<char>) -> Seq<char> {
    let rest = after_authority(url);
    rest.take(span(rest, path_stops()))
}

/// What follows the path.
pub open spec fn after_path(url: Seq<char>) -> Seq<char> {
    let rest = after_authority(url);
    rest.skip(span(rest, path_stops()))
}

/// Whether the URL has a query: a `?` follows the path.
pub open spec fn has_query(url: Seq<char>) -> bool {
    let rest = after_path(url);
    rest.len() > 0 && rest[0] == '?'
}

/// The query, without the `?` before it.
pub open spec fn query_of(url: Seq<char>) -> Seq<char> {
    if has_query(url) {
        let rest = after_path(url).skip(1);
        rest.take(span(rest, query_stops()))
    } else {
        Seq::empty()
    }
}

/// Whether the URL has a fragment: a `#` somewhere behind the scheme.
pub open spec fn has_fragment(url: Seq<char>) -> bool {
    after_scheme(url).contains('#')
}

/// The name in one piece of a query: what stands before the first `=`.
pub open spec fn name_of(piece: Seq<char>) -> Seq<char> {
    piece.take(span(piece, set!['=']))
}

/// The value in one piece of a query: what stands behind the first `=`.
pub open spec fn value_of(piece: Seq<char>) -> Seq<char> {
    let n = span(piece, set!['=']);
    if n < piece.len() {
        piece.skip(n + 1)
    } else {
        Seq::empty()
    }
}

/// The pairs of a query as they are written, not yet decoded: the query is cut
/// at each `&`, empty pieces are passed over, and each piece is cut at its
/// first `=`.
pub open spec fn query_pairs(query: Seq<char>) -> Seq<(Seq<char>, Seq<char>)>
    decreases query.len(),
{
    if query.len() == 0 {
        Seq::empty()
    } else {
        let n = span(query, set!['&']);
        let rest = if 0 <= n < query.len() {
            query.skip(n + 1)
        } else {
            Seq::empty()
        };
        if n == 0 {
            query_pairs(rest)
        } else {
            seq![(name_of(query.take(n)), value_of(query.take(n)))] + query_pairs(rest)
        }
    }
}

/// A span ends at the first character of `stops`: behind a prefix that is
/// free of them, it is as long as the prefix where the text ends there or
/// goes on with one of them.
pub proof fn lemma_span_prefix(head: Seq<char>, tail: Seq<char>, stops: Set<char>)
    requires
        free_of(head, stops),
        tail.len() == 0 || stops.contains(tail[0]),
    ensures
        span(head + tail, stops) == head.len(),
    decreases head.len(),
{
    let s = head + tail;
    if head.len() == 0 {
        assert(s =~= tail);
    } else {
        assert(s[0] == head[0]);
        assert(s.drop_first() =~= head.drop_first() + tail);
        assert(free_of(head.drop_first(), stops)) by {
            assert forall|i: int| 0 <= i < head.drop_first().len() implies !stops.contains(
                #[trigger] head.drop_first()[i],
            ) by {
                assert(head.drop_first()[i] == head[i + 1]);
            }
        }
        lemma_span_prefix(head.drop_first(), tail, stops);
    }
}

/// A text free of `stops` is spanned whole.
pub proof fn lemma_span_whole(s: Seq<char>, stops: Set<char>)
    requires
        free_of(s, stops),
    ensures
        span(s, stops) == s.len(),
{
    lemma_span_prefix(s, Seq::empty(), stops);
    assert(s + Seq::<char>::empty() =~= s);
}

/// Two texts free of `stops` are free of them together.
pub proof fn lemma_free_of_concat(a: Seq<char>, b: Seq<char>, stops: Set<char>)
    requires
        free_of(a, stops),
        free_of(b, stops),
    ensures
        free_of(a + b, stops),
{
    assert forall|i: int| 0 <= i < (a + b).len() implies !stops.contains(#[trigger] (a + b)[i]) by {
        if i < a.len() {
            assert((a + b)[i] == a[i]);
        } else {
            assert((a + b)[i] == b[i - a.len()]);
        }
    }
}

/// A text free of a larger set is free of a smaller one.
pub proof fn lemma_free_of_subset(s: Seq<char>, more: Set<char>, fewer: Set<char>)
    requires
        free_of(s, more),
        fewer.subset_of(more),
    ensures
        free_of(s, fewer),
{
}

/// A query that is one piece, with `=` in it, is one pair.
pub proof fn lemma_query_pairs_last(name: Seq<char>, value: Seq<char>)
    requires
        free_of(name, set!['=', '&']),
        free_of(value, set!['&']),
    ensures
        query_pairs(name + seq!['='] + value) == seq![(name, value)],
{
    let piece = name + seq!['='] + value;
    let amp = set!['&'];
    let eq = set!['='];
    lemma_free_of_subset(name, set!['=', '&'], amp);
    lemma_free_of_subset(name, set!['=', '&'], eq);
    assert(free_of(seq!['='], amp));
    lemma_free_of_concat(name, seq!['='], amp);
    lemma_free_of_concat(name + seq!['='], value, amp);
    lemma_span_whole(piece, amp);
    assert(piece.take(piece.len() as int) =~= piece);
    assert(piece =~= name + (seq!['='] + value));
    lemma_span_prefix(name, seq!['='] + value, eq);
    assert(piece.take(name.len() as int) =~= name);
    assert(piece.skip(name.len() as int + 1) =~= value);
    assert(query_pairs(Seq::<char>::empty()) =~= Seq::empty());
    assert(seq![(name, value)] + Seq::<(Seq<char>, Seq<char>)>::empty() =~= seq![(name, value)]);
}

/// A query that begins with a piece and `&` is the pair of that piece,
/// followed by the pairs of what stands behind the `&`.
pub proof fn lemma_query_pairs_first(name: Seq<char>, value: Seq<char>, rest: Seq<char>)
    requires
        free_of(name, set!['=', '&']),
        free_of(value, set!['&']),
    ensures
        query_pairs(name + seq!['='] + value + seq!['&'] + rest) == seq![(name, value)]
            + query_pairs(rest),
{
    let piece = name + seq!['='] + value;
    let query = piece + seq!['&'] + rest;
    let amp = set!['&'];
    let eq = set!['='];
    lemma_free_of_subset(name, set!['=', '&'], amp);
    lemma_free_of_subset(name, set!['=', '&'], eq);
    assert(free_of(seq!['='], amp));
    lemma_free_of_concat(name, seq!['='], amp);
    lemma_free_of_concat(name + seq!['='], value, amp);
    assert(query =~= piece + (seq!['&'] + rest));
    lemma_span_prefix(piece, seq!['&'] + rest, amp);
    assert(query.take(piece.len() as int) =~= piece);
    assert(query.skip(piece.len() as int + 1) =~= rest);
    assert(piece =~= name + (seq!['='] + value));
    lemma_span_prefix(name, seq!['='] + value, eq);
    assert(piece.take(name.len() as int) =~= name);
    assert(piece.skip(name.len() as int + 1) =~= value);
}

} // verus!
