use vstd::prelude::*;

verus! {

/// The pieces of `s` between occurrences of `sep`, as `str::split` yields
/// them: there is always at least one piece, and an empty string gives one
/// empty piece.
pub open spec fn split_on(s: Seq<char>, sep: char) -> Seq<Seq<char>>
    decreases s.len(),
{
    if s.len() == 0 {
        seq![Seq::<char>::empty()]
    } else {
        let init = split_on(s.drop_last(), sep);
        if s.last() == sep {
            init.push(Seq::<char>::empty())
        } else {
            init.update(init.len() - 1, init.last().push(s.last()))
        }
    }
}

/// `split_on` never yields an empty list of pieces.
pub proof fn lemma_split_on_nonempty(s: Seq<char>, sep: char)
    ensures
        split_on(s, sep).len() >= 1,
    decreases s.len(),
{
    if s.len() > 0 {
        lemma_split_on_nonempty(s.drop_last(), sep);
    }
}

/// `String::push`: appends `c` to the end of `s`.
#[verifier::external_body]
fn push_char(s: &mut String, c: char)
    ensures
        final(s)@ == old(s)@.push(c),
{
    s.push(c)
}

/// Splits `s` at every `sep`, like `s.split(sep)` collected into owned strings.
pub fn split_string(s: &str, sep: char) -> (pieces: Vec<String>)
    ensures
        pieces@.map_values(|p: String| p@) == split_on(s@, sep),
{
    let mut done: Vec<String> = Vec::new();
    let mut current = String::new();
    let ghost text = s@;
    proof {
        assert(text.take(0) =~= Seq::<char>::empty());
        assert(done@.map_values(|p: String| p@).push(current@) =~= split_on(text.take(0), sep));
    }
    for c in it: s.chars()
        invariant
            text == s@,
            it.seq() == text,
            done@.map_values(|p: String| p@).push(current@) == split_on(text.take(it.index() as int), sep),
    {
        let ghost before = text.take(it.index() as int);
        let ghost after = text.take(it.index() + 1);
        proof {
            assert(after.drop_last() =~= before);
            assert(after.last() == c);
        }
        if c == sep {
            done.push(current);
            current = String::new();
            proof {
                assert(done@.map_values(|p: String| p@).push(current@) =~= split_on(before, sep).push(Seq::<char>::empty()));
            }
        } else {
            let ghost prev = current@;
            push_char(&mut current, c);
            proof {
                lemma_split_on_nonempty(before, sep);
                assert(done@.map_values(|p: String| p@).push(current@) =~= split_on(before, sep).update(
                    split_on(before, sep).len() - 1, prev.push(c)));
            }
        }
    }
    proof {
        assert(text.take(text.len() as int) =~= text);
    }
    done.push(current);
    done
}


/// The value that a single `key=value` piece holds for `name`: the text
/// between the first and the second `=`, when the text before the first `=`
/// is `name` and there is an `=` at all.
pub open spec fn segment_value(segment: Seq<char>, name: Seq<char>) -> Option<Seq<char>> {
    let parts = split_on(segment, '=');
    if parts.len() >= 2 && parts[0] == name {
        Some(parts[1])
    } else {
        None
    }
}

/// The value of the first piece that holds a value for `name`.
pub open spec fn first_segment_value(segments: Seq<Seq<char>>, name: Seq<char>) -> Option<Seq<char>>
    decreases segments.len(),
{
    if segments.len() == 0 {
        None
    } else {
        match segment_value(segments[0], name) {
            Some(v) => Some(v),
            None => first_segment_value(segments.drop_first(), name),
        }
    }
}

/// The value of parameter `name` in the query string `query`: the first
/// `&`-separated piece of the form `name=value...` gives it.
pub open spec fn query_param(query: Seq<char>, name: Seq<char>) -> Option<Seq<char>> {
    first_segment_value(split_on(query, '&'), name)
}

/// The value of parameter `name`, or `/` when the query holds none.
pub open spec fn query_param_or_root(query: Seq<char>, name: Seq<char>) -> Seq<char> {
    match query_param(query, name) {
        Some(v) => v,
        None => seq!['/'],
    }
}

/// Looks up parameter `name` in the query string `query`.
pub fn find_query_param(query: &str, name: &str) -> (value: Option<String>)
    ensures
        match value {
            Some(v) => query_param(query@, name@) == Some(v@),
            None => query_param(query@, name@) is None,
        },
{
    let wanted = name.to_owned();
    let segments = split_string(query, '&');
    let ghost segs = segments@.map_values(|p: String| p@);
    let mut i: usize = 0;
    proof {
        assert(segs.skip(0) =~= segs);
    }
    while i < segments.len()
        invariant
            segs == segments@.map_values(|p: String| p@),
            segs == split_on(query@, '&'),
            wanted@ == name@,
            0 <= i <= segments.len(),
            query_param(query@, name@) == first_segment_value(segs.skip(i as int), name@),
        decreases segments.len() - i,
    {
        proof {
            assert(segs.skip(i as int)[0] == segs[i as int]);
            assert(segs.skip(i as int).drop_first() =~= segs.skip(i + 1));
        }
        let parts = split_string(segments[i].as_str(), '=');
        let ghost ps = parts@.map_values(|p: String| p@);
        if parts.len() >= 2 && parts[0] == wanted {
            proof {
                assert(ps[0] == parts@[0]@);
                assert(ps[1] == parts@[1]@);
            }
            return Some(parts[1].clone());
        }
        proof {
            if ps.len() >= 2 {
                assert(ps[0] == parts@[0]@);
            }
        }
        i = i + 1;
    }
    proof {
        assert(segs.skip(i as int) =~= Seq::<Seq<char>>::empty());
    }
    None
}

/// The value of parameter `name` in `query`, or `/` when there is none.
pub fn extract_query_param(query: &str, name: &str) -> (value: String)
    ensures
        value@ == query_param_or_root(query@, name@),
{
    match find_query_param(query, name) {
        Some(v) => v,
        None => {
            let mut root = String::new();
            push_char(&mut root, '/');
            proof {
                assert(root@ =~= seq!['/']);
            }
            root
        }
    }
}


/// Splitting a text made of `a`, a separator and `b` gives the pieces of `a`
/// followed by the pieces of `b`.
pub proof fn lemma_split_concat(a: Seq<char>, b: Seq<char>, sep: char)
    ensures
        split_on(a + seq![sep] + b, sep) == split_on(a, sep) + split_on(b, sep),
    decreases b.len(),
{
    let s = a + seq![sep] + b;
    if b.len() == 0 {
        assert(s.drop_last() =~= a);
        assert(split_on(b, sep) =~= seq![Seq::<char>::empty()]);
        assert(split_on(a, sep).push(Seq::<char>::empty()) =~= split_on(a, sep) + split_on(b, sep));
    } else {
        let b0 = b.drop_last();
        lemma_split_concat(a, b0, sep);
        lemma_split_on_nonempty(b0, sep);
        lemma_split_on_nonempty(a, sep);
        assert(s.drop_last() =~= a + seq![sep] + b0);
        assert(s.last() == b.last());
        let pa = split_on(a, sep);
        let pb0 = split_on(b0, sep);
        if b.last() == sep {
            assert((pa + pb0).push(Seq::<char>::empty()) =~= pa + pb0.push(Seq::<char>::empty()));
        } else {
            assert((pa + pb0).update((pa + pb0).len() - 1, (pa + pb0).last().push(b.last())) =~= pa
                + pb0.update(pb0.len() - 1, pb0.last().push(b.last())));
        }
    }
}

/// A text without the separator is a single piece.
pub proof fn lemma_split_without_separator(a: Seq<char>, sep: char)
    requires
        !a.contains(sep),
    ensures
        split_on(a, sep) == seq![a],
    decreases a.len(),
{
    if a.len() > 0 {
        let a0 = a.drop_last();
        assert(!a0.contains(sep)) by {
            if a0.contains(sep) {
                let i = choose|i: int| 0 <= i < a0.len() && a0[i] == sep;
                assert(a[i] == sep);
            }
        }
        lemma_split_without_separator(a0, sep);
        assert(a.last() != sep) by {
            assert(a[a.len() - 1] == a.last());
        }
        assert(a0.push(a.last()) =~= a);
        assert(seq![a0].update(0, a0.push(a.last())) =~= seq![a]);
    } else {
        assert(a =~= Seq::<char>::empty());
    }
}

/// The text `name=value`.
pub open spec fn param_pair(name: Seq<char>, value: Seq<char>) -> Seq<char> {
    name + seq!['='] + value
}

/// `s` holds neither `&` nor `=`.
pub open spec fn plain_text(s: Seq<char>) -> bool {
    !s.contains('&') && !s.contains('=')
}

/// A parameter written as `name=value` at the head of a query is read back
/// as `value`, whatever follows it.
pub proof fn law_param_read_back(name: Seq<char>, value: Seq<char>, rest: Seq<char>)
    requires
        plain_text(name),
        plain_text(value),
    ensures
        query_param(param_pair(name, value), name) == Some(value),
        query_param(param_pair(name, value) + seq!['&'] + rest, name) == Some(value),
{
    let pair = param_pair(name, value);
    lemma_split_without_separator(name, '=');
    lemma_split_without_separator(value, '=');
    lemma_split_concat(name, value, '=');
    assert(pair =~= name + seq!['='] + value);
    assert(split_on(pair, '=') =~= seq![name, value]);
    assert(!pair.contains('&')) by {
        if pair.contains('&') {
            let i = choose|i: int| 0 <= i < pair.len() && pair[i] == '&';
            if i < name.len() {
                assert(name[i] == '&');
            } else if i > name.len() {
                assert(value[i - name.len() - 1] == '&');
            }
        }
    }
    lemma_split_without_separator(pair, '&');
    assert(segment_value(pair, name) == Some(value));
    assert(first_segment_value(seq![pair], name) == Some(value));
    lemma_split_concat(pair, rest, '&');
    let segs = split_on(pair + seq!['&'] + rest, '&');
    assert(segs =~= seq![pair] + split_on(rest, '&'));
    assert(segs[0] == pair);
}

/// A query whose first piece is not a parameter named `name` is read as if
/// that piece were not there.
pub proof fn law_param_skips_other_piece(piece: Seq<char>, rest: Seq<char>, name: Seq<char>)
    requires
        !piece.contains('&'),
        segment_value(piece, name) is None,
    ensures
        query_param(piece + seq!['&'] + rest, name) == query_param(rest, name),
{
    lemma_split_without_separator(piece, '&');
    lemma_split_concat(piece, rest, '&');
    let segs = split_on(piece + seq!['&'] + rest, '&');
    assert(segs =~= seq![piece] + split_on(rest, '&'));
    assert(segs.drop_first() =~= split_on(rest, '&'));
}

} // verus!
