//! Query strings: how a list of parameters is written into a URL, and how it is read back.

use crate::text::{
    chars_of, decimal_text, digit_value, lemma_decimal_digits, lemma_split_append,
    lemma_split_plain, split,
};
use vstd::prelude::*;

verus! {

/// A parameter: its key and its value.
pub type Pair = (Seq<char>, Seq<char>);

/// A key that can be read back as written: it holds neither `&` nor `=`.
pub open spec fn plain_key(key: Seq<char>) -> bool {
    !key.contains('&') && !key.contains('=')
}

/// A value that can be read back as written: it holds no `&`.
pub open spec fn plain_value(value: Seq<char>) -> bool {
    !value.contains('&')
}

/// Every parameter of the list can be read back as written.
pub open spec fn plain_pairs(pairs: Seq<Pair>) -> bool {
    forall|i: int|
        0 <= i < pairs.len() ==> plain_key(#[trigger] pairs[i].0) && plain_value(pairs[i].1)
}

/// One parameter as it stands in a query string: `key=value`.
pub open spec fn pair_text(pair: Pair) -> Seq<char> {
    pair.0 + seq!['='] + pair.1
}

/// A list of parameters as a query string: the parameters in order, with `&` between them.
/// Nothing is escaped.
pub open spec fn query_text(pairs: Seq<Pair>) -> Seq<char>
    decreases pairs.len(),
{
    if pairs.len() == 0 {
        Seq::empty()
    } else if pairs.len() == 1 {
        pair_text(pairs[0])
    } else {
        query_text(pairs.drop_last()) + seq!['&'] + pair_text(pairs.last())
    }
}

/// A URL: the base, `?`, and the query string.
pub open spec fn url_text(base: Seq<char>, pairs: Seq<Pair>) -> Seq<char> {
    base + seq!['?'] + query_text(pairs)
}

/// The parameter that a piece of a query string stands for: the key is what comes before the
/// first `=` and the value what comes after it; a piece without `=` is a key with an empty
/// value.
pub open spec fn cut(piece: Seq<char>) -> Pair {
    match piece.index_of_first('=') {
        Some(at) => (piece.take(at), piece.skip(at + 1)),
        None => (piece, Seq::empty()),
    }
}

/// The parameters that the pieces of a query string stand for, in order. An empty piece
/// stands for none.
pub open spec fn pairs_of(pieces: Seq<Seq<char>>) -> Seq<Pair>
    decreases pieces.len(),
{
    if pieces.len() == 0 {
        Seq::empty()
    } else {
        let before = pairs_of(pieces.drop_last());
        if pieces.last().len() == 0 {
            before
        } else {
            before.push(cut(pieces.last()))
        }
    }
}

/// The query string of a URL: what follows the first `?`, or nothing where there is none.
pub open spec fn query_part(url: Seq<char>) -> Seq<char> {
    match url.index_of_first('?') {
        Some(at) => url.skip(at + 1),
        None => Seq::empty(),
    }
}

/// The parameters that a URL carries, in order.
pub open spec fn query_of(url: Seq<char>) -> Seq<Pair> {
    pairs_of(split(query_part(url), '&'))
}

/// The parameters that a list of owned pairs stands for.
pub open spec fn pairs_view(pairs: Seq<(String, String)>) -> Seq<Pair> {
    pairs.map_values(|pair: (String, String)| (pair.0@, pair.1@))
}

/// The parameters that a list of borrowed pairs stands for.
pub open spec fn params_view(params: Seq<(&str, &str)>) -> Seq<Pair> {
    params.map_values(|pair: (&str, &str)| (pair.0@, pair.1@))
}

/// The place of the first occurrence of a character is the one place that holds it and has
/// none before it.
pub proof fn lemma_first_index(text: Seq<char>, mark: char, at: int)
    requires
        0 <= at < text.len(),
        text[at] == mark,
        forall|j: int| 0 <= j < at ==> text[j] != mark,
    ensures
        text.index_of_first(mark) == Some(at),
{
    text.index_of_first_ensures(mark);
    assert(text.contains(mark));
}

/// A text without a character has no first occurrence of it.
pub proof fn lemma_no_index(text: Seq<char>, mark: char)
    requires
        !text.contains(mark),
    ensures
        text.index_of_first(mark) is None,
{
    text.index_of_first_ensures(mark);
}

/// A parameter with a plain key is read back from its text.
pub proof fn lemma_cut_pair_text(pair: Pair)
    requires
        !pair.0.contains('='),
    ensures
        cut(pair_text(pair)) == pair,
        pair_text(pair).len() > 0,
{
    let piece = pair_text(pair);
    let at = pair.0.len() as int;
    assert forall|j: int| 0 <= j < at implies piece[j] != '=' by {
        assert(piece[j] == pair.0[j]);
        assert(pair.0.contains(pair.0[j]));
    }
    lemma_first_index(piece, '=', at);
    assert(piece.take(at) =~= pair.0);
    assert(piece.skip(at + 1) =~= pair.1);
}

/// The text of a plain parameter holds no `&`.
pub proof fn lemma_pair_text_plain(pair: Pair)
    requires
        plain_key(pair.0),
        plain_value(pair.1),
    ensures
        !pair_text(pair).contains('&'),
{
    let piece = pair_text(pair);
    assert forall|j: int| 0 <= j < piece.len() implies piece[j] != '&' by {
        if j < pair.0.len() {
            assert(piece[j] == pair.0[j]);
            assert(pair.0.contains(pair.0[j]));
        } else if j > pair.0.len() {
            let k = j - pair.0.len() - 1;
            assert(piece[j] == pair.1[k]);
            assert(pair.1.contains(pair.1[k]));
        }
    }
}

/// A number in decimal digits holds no `&` and no `=`.
pub proof fn lemma_decimal_plain(number: nat)
    ensures
        !decimal_text(number).contains('&'),
        !decimal_text(number).contains('='),
{
    lemma_decimal_digits(number);
    let text = decimal_text(number);
    assert forall|i: int| 0 <= i < text.len() implies text[i] != '&' && text[i] != '=' by {
        assert(digit_value(text[i]) is Some);
    }
}

/// One more parameter in the list is one more `key=value` in the query string.
pub proof fn lemma_query_text_push(pairs: Seq<Pair>, pair: Pair)
    ensures
        query_text(pairs.push(pair)) == if pairs.len() == 0 {
            pair_text(pair)
        } else {
            query_text(pairs) + seq!['&'] + pair_text(pair)
        },
{
    let longer = pairs.push(pair);
    assert(longer.drop_last() =~= pairs);
    assert(longer.last() == pair);
    if pairs.len() == 0 {
        assert(longer[0] == pair);
    }
}

/// A query string of plain parameters is read back as the list that it was written from.
pub proof fn lemma_read_query_text(pairs: Seq<Pair>)
    requires
        plain_pairs(pairs),
    ensures
        pairs_of(split(query_text(pairs), '&')) == pairs,
    decreases pairs.len(),
{
    if pairs.len() == 0 {
        let pieces = split(Seq::<char>::empty(), '&');
        assert(pieces.len() == 1 && pieces.last().len() == 0);
        assert(pieces.drop_last() =~= Seq::<Seq<char>>::empty());
        assert(pairs_of(pieces.drop_last()) =~= Seq::<Pair>::empty());
        assert(pairs_of(pieces) =~= pairs);
    } else {
        let last = pairs.last();
        assert(plain_key(last.0) && plain_value(last.1));
        lemma_pair_text_plain(last);
        lemma_cut_pair_text(last);
        if pairs.len() == 1 {
            lemma_split_plain(pair_text(last), '&');
            let pieces = seq![pair_text(last)];
            assert(pieces.drop_last() =~= Seq::<Seq<char>>::empty());
            assert(pairs_of(pieces.drop_last()) =~= Seq::<Pair>::empty());
            assert(pairs_of(pieces) =~= pairs);
        } else {
            let front = pairs.drop_last();
            assert(plain_pairs(front)) by {
                assert forall|i: int| 0 <= i < front.len() implies plain_key(
                    #[trigger] front[i].0,
                ) && plain_value(front[i].1) by {
                    assert(front[i] == pairs[i]);
                }
            }
            lemma_read_query_text(front);
            lemma_split_append(query_text(front), pair_text(last), '&');
            let pieces = split(query_text(front), '&').push(pair_text(last));
            assert(pieces.drop_last() =~= split(query_text(front), '&'));
            assert(front.push(last) =~= pairs);
        }
    }
}

/// What follows the first `?` of a URL is its query string, whatever is appended to the URL.
pub proof fn lemma_query_part_append(url: Seq<char>, more: Seq<char>)
    requires
        url.contains('?'),
    ensures
        query_part(url + more) == query_part(url) + more,
{
    url.index_of_first_ensures('?');
    let at = url.index_of_first('?')->0;
    let longer = url + more;
    assert forall|j: int| 0 <= j < at implies longer[j] != '?' by {
        assert(longer[j] == url[j]);
    }
    assert(longer[at] == url[at]);
    lemma_first_index(longer, '?', at);
    assert(longer.skip(at + 1) =~= url.skip(at + 1) + more);
}

/// A URL written from a base without `?` and plain parameters carries exactly those
/// parameters, in order.
pub proof fn lemma_read_url_text(base: Seq<char>, pairs: Seq<Pair>)
    requires
        !base.contains('?'),
        plain_pairs(pairs),
    ensures
        query_of(url_text(base, pairs)) == pairs,
{
    let url = url_text(base, pairs);
    let at = base.len() as int;
    assert forall|j: int| 0 <= j < at implies url[j] != '?' by {
        assert(url[j] == base[j]);
        assert(base.contains(base[j]));
    }
    lemma_first_index(url, '?', at);
    assert(url.skip(at + 1) =~= query_text(pairs));
    lemma_read_query_text(pairs);
}

/// A plain parameter appended to a URL that has a query string is one more parameter at the
/// end of those that the URL carries.
pub proof fn lemma_read_appended(url: Seq<char>, pair: Pair)
    requires
        url.contains('?'),
        plain_key(pair.0),
        plain_value(pair.1),
    ensures
        query_of(url + seq!['&'] + pair_text(pair)) == query_of(url).push(pair),
{
    let more = seq!['&'] + pair_text(pair);
    assert(url + seq!['&'] + pair_text(pair) =~= url + more);
    lemma_query_part_append(url, more);
    let query = query_part(url);
    assert(query + more =~= query + seq!['&'] + pair_text(pair));
    lemma_pair_text_plain(pair);
    lemma_cut_pair_text(pair);
    lemma_split_append(query, pair_text(pair), '&');
    let pieces = split(query, '&').push(pair_text(pair));
    assert(pieces.drop_last() =~= split(query, '&'));
}

/// One more piece is one more parameter, unless the piece is empty.
pub proof fn lemma_pairs_of_push(pieces: Seq<Seq<char>>, piece: Seq<char>)
    ensures
        pairs_of(pieces.push(piece)) == if piece.len() == 0 {
            pairs_of(pieces)
        } else {
            pairs_of(pieces).push(cut(piece))
        },
{
    assert(pieces.push(piece).drop_last() =~= pieces);
}

/// Appends `&key=value` to a URL. Nothing is escaped.
pub fn append_pair(url: &mut String, key: &str, value: &str)
    ensures
        final(url)@ == old(url)@ + seq!['&'] + pair_text((key@, value@)),
{
    proof {
        reveal_strlit("&");
        reveal_strlit("=");
    }
    url.append("&");
    url.append(key);
    url.append("=");
    url.append(value);
    assert(url@ =~= old(url)@ + seq!['&'] + pair_text((key@, value@)));
}

/// Writes a URL: the base, `?`, and the parameters in the order given, as `key=value` with `&`
/// between them. Nothing is escaped.
pub fn compose(base: &str, params: &Vec<(&str, &str)>) -> (url: String)
    ensures
        url@ == url_text(base@, params_view(params@)),
{
    proof {
        reveal_strlit("?");
    }
    let ghost pairs = params_view(params@);
    let mut url = base.to_owned();
    url.append("?");
    let mut i: usize = 0;
    while i < params.len()
        invariant
            i <= params.len(),
            pairs == params_view(params@),
            url@ == url_text(base@, pairs.take(i as int)),
        decreases params.len() - i,
    {
        let key = params[i].0;
        let value = params[i].1;
        proof {
            assert(pairs[i as int] == (key@, value@));
            assert(pairs.take(i + 1) =~= pairs.take(i as int).push(pairs[i as int]));
            lemma_query_text_push(pairs.take(i as int), pairs[i as int]);
        }
        if i == 0 {
            proof {
                reveal_strlit("=");
            }
            assert(query_text(pairs.take(0)) =~= Seq::<char>::empty());
            url.append(key);
            url.append("=");
            url.append(value);
            assert(url@ =~= url_text(base@, pairs.take(i + 1)));
        } else {
            append_pair(&mut url, key, value);
            assert(url@ =~= url_text(base@, pairs.take(i + 1)));
        }
        i += 1;
    }
    assert(pairs.take(i as int) =~= pairs);
    url
}

/// Reads one piece of a query string, the characters from `from` up to `to`.
fn cut_piece(text: &str, chars: &Vec<char>, from: usize, to: usize) -> (pair: (String, String))
    requires
        chars@ == text@,
        from <= to <= chars@.len(),
    ensures
        (pair.0@, pair.1@) == cut(text@.subrange(from as int, to as int)),
{
    let mut at: usize = from;
    while at < to && chars[at] != '='
        invariant
            from <= at <= to <= chars@.len(),
            forall|j: int| from <= j < at ==> chars@[j] != '=',
        decreases to - at,
    {
        at += 1;
    }
    let ghost piece = text@.subrange(from as int, to as int);
    if at < to {
        proof {
            lemma_first_index(piece, '=', at - from);
            assert(piece.take(at - from) =~= text@.subrange(from as int, at as int));
            assert(piece.skip(at - from + 1) =~= text@.subrange(at + 1, to as int));
        }
        (text.substring_char(from, at).to_owned(), text.substring_char(at + 1, to).to_owned())
    } else {
        proof {
            lemma_no_index(piece, '=');
        }
        (text.substring_char(from, to).to_owned(), String::new())
    }
}

/// Reads the parameters that a URL carries: what follows the first `?` is cut at each `&`,
/// and each piece that is not empty at its first `=`. Nothing is unescaped.
pub fn query_pairs(url: &str) -> (pairs: Vec<(String, String)>)
    ensures
        pairs_view(pairs@) == query_of(url@),
{
    let chars = chars_of(url);
    let n = chars.len();
    let mut start: usize = 0;
    while start < n && chars[start] != '?'
        invariant
            n == chars@.len(),
            start <= n,
            forall|j: int| 0 <= j < start ==> chars@[j] != '?',
        decreases n - start,
    {
        start += 1;
    }
    let mut pairs: Vec<(String, String)> = Vec::new();
    if start == n {
        proof {
            lemma_no_index(url@, '?');
            let pieces = split(Seq::<char>::empty(), '&');
            assert(pieces.len() == 1 && pieces.last().len() == 0);
            assert(pieces.drop_last() =~= Seq::<Seq<char>>::empty());
            assert(pairs_of(pieces.drop_last()) =~= Seq::<Pair>::empty());
            assert(pairs_view(pairs@) =~= query_of(url@));
        }
        return pairs;
    }
    let first = start + 1;
    let ghost query = url@.skip(first as int);
    proof {
        lemma_first_index(url@, '?', start as int);
        assert(query_part(url@) == query);
    }
    let mut from: usize = first;
    let mut i: usize = first;
    let ghost mut done: Seq<Seq<char>> = Seq::empty();
    assert(query.take(0) =~= Seq::<char>::empty());
    assert(url@.subrange(from as int, i as int) =~= Seq::<char>::empty());
    assert(split(query.take(0), '&') =~= done.push(url@.subrange(from as int, i as int)));
    assert(pairs_view(pairs@) =~= pairs_of(done));
    while i < n
        invariant
            n == chars@.len(),
            chars@ == url@,
            first <= from <= i <= n,
            query == url@.skip(first as int),
            split(query.take(i - first), '&') == done.push(url@.subrange(from as int, i as int)),
            pairs_view(pairs@) == pairs_of(done),
        decreases n - i,
    {
        let ghost piece = url@.subrange(from as int, i as int);
        let ghost longer = query.take(i + 1 - first);
        proof {
            assert(longer.drop_last() =~= query.take(i - first));
            assert(longer.last() == url@[i as int]);
            assert(done.push(piece).drop_last() =~= done);
        }
        if chars[i] == '&' {
            if from < i {
                let pair = cut_piece(url, &chars, from, i);
                let ghost before = pairs_view(pairs@);
                pairs.push(pair);
                assert(pairs_view(pairs@) =~= before.push((pair.0@, pair.1@)));
            }
            proof {
                lemma_pairs_of_push(done, piece);
                done = done.push(piece);
                assert(url@.subrange(i + 1, i + 1) =~= Seq::<char>::empty());
            }
            from = i + 1;
        } else {
            proof {
                assert(piece.push(url@[i as int]) =~= url@.subrange(from as int, i + 1));
            }
        }
        i += 1;
    }
    let ghost piece = url@.subrange(from as int, n as int);
    proof {
        assert(query.take(n - first) =~= query);
        lemma_pairs_of_push(done, piece);
    }
    if from < n {
        let pair = cut_piece(url, &chars, from, n);
        let ghost before = pairs_view(pairs@);
        pairs.push(pair);
        assert(pairs_view(pairs@) =~= before.push((pair.0@, pair.1@)));
    }
    pairs
}

} // verus!
