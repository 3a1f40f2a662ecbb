//! Tags of guests: the API gives them as one string with `;` between tags.
use vstd::prelude::*;
use vstd::string::*;

verus! {

/// The pieces of `s` between occurrences of `sep`, in order; like
/// `str::split`, an empty text gives one empty piece and a separator at an end
/// gives an empty piece there.
pub open spec fn split_on<A>(s: Seq<A>, sep: A) -> Seq<Seq<A>>
    decreases s.len(),
{
    if s.len() == 0 {
        seq![Seq::empty()]
    } else {
        let rest = split_on(s.drop_last(), sep);
        if s.last() == sep {
            rest.push(Seq::empty())
        } else {
            rest.update(rest.len() - 1, rest.last().push(s.last()))
        }
    }
}

/// The pieces joined again, with `sep` between neighbours.
pub open spec fn join_with<A>(pieces: Seq<Seq<A>>, sep: A) -> Seq<A>
    decreases pieces.len(),
{
    if pieces.len() == 0 {
        Seq::empty()
    } else if pieces.len() == 1 {
        pieces[0]
    } else {
        join_with(pieces.drop_last(), sep) + seq![sep] + pieces.last()
    }
}

/// The tags that a tag string holds, in order.
pub open spec fn tag_list(s: Option<Seq<char>>) -> Seq<Seq<char>> {
    match s {
        None => Seq::empty(),
        Some(t) => split_on(t, ';'),
    }
}

proof fn lemma_split_nonempty<A>(s: Seq<A>, sep: A)
    ensures
        split_on(s, sep).len() >= 1,
    decreases s.len(),
{
    if s.len() > 0 {
        lemma_split_nonempty(s.drop_last(), sep);
    }
}

/// Splitting and joining again gives back the text.
pub proof fn lemma_split_join<A>(s: Seq<A>, sep: A)
    ensures
        join_with(split_on(s, sep), sep) == s,
    decreases s.len(),
{
    if s.len() > 0 {
        let init = s.drop_last();
        lemma_split_join(init, sep);
        lemma_split_nonempty(init, sep);
        let rest = split_on(init, sep);
        if s.last() == sep {
            assert(rest.push(Seq::empty()).drop_last() =~= rest);
            assert(s =~= init + seq![sep] + Seq::<A>::empty());
        } else {
            let upd = rest.update(rest.len() - 1, rest.last().push(s.last()));
            if rest.len() == 1 {
                assert(s =~= rest[0].push(s.last()));
            } else {
                assert(upd.drop_last() =~= rest.drop_last());
                assert(join_with(rest, sep) == join_with(rest.drop_last(), sep) + seq![sep] + rest.last());
                assert(init == join_with(rest.drop_last(), sep) + seq![sep] + rest.last());
                assert(s =~= init.push(s.last()));
                assert(s =~= join_with(rest.drop_last(), sep) + seq![sep] + rest.last().push(s.last()));
            }
        }
    }
}

/// No piece holds the separator.
pub proof fn lemma_split_pieces_free_of_separator<A>(s: Seq<A>, sep: A)
    ensures
        forall|i: int| 0 <= i < split_on(s, sep).len() ==> !(#[trigger] split_on(s, sep)[i]).contains(sep),
    decreases s.len(),
{
    if s.len() > 0 {
        let init = s.drop_last();
        lemma_split_pieces_free_of_separator(init, sep);
        lemma_split_nonempty(init, sep);
        let rest = split_on(init, sep);
        if s.last() != sep {
            assert forall|i: int| 0 <= i < split_on(s, sep).len() implies !(#[trigger] split_on(s, sep)[i]).contains(sep) by {
                if i == rest.len() - 1 {
                    let p = rest.last().push(s.last());
                    if p.contains(sep) {
                        let k = choose|k: int| 0 <= k < p.len() && p[k] == sep;
                        assert(rest.last().contains(sep) || k == p.len() - 1);
                    }
                }
            }
        } else {
            assert forall|i: int| 0 <= i < split_on(s, sep).len() implies !(#[trigger] split_on(s, sep)[i]).contains(sep) by {
                if i == rest.len() {
                    assert(split_on(s, sep)[i] =~= Seq::<A>::empty());
                }
            }
        }
    }
}

/// The tags of a tag string are its pieces between `;`: joined again with
/// `;` they give back the string exactly, and no tag holds a `;`. No string
/// has no tags.
pub proof fn lemma_tag_list_splits(t: Seq<char>)
    ensures
        tag_list(Some(t)) == split_on(t, ';'),
        join_with(tag_list(Some(t)), ';') == t,
        forall|i: int|
            0 <= i < tag_list(Some(t)).len() ==> !(#[trigger] tag_list(Some(t))[i]).contains(';'),
        tag_list(None) == Seq::<Seq<char>>::empty(),
{
    lemma_split_join(t, ';');
    lemma_split_pieces_free_of_separator(t, ';');
}

/// Appending text without the separator extends the last piece by it.
proof fn lemma_split_append_free<A>(x: Seq<A>, b: Seq<A>, sep: A)
    requires
        !b.contains(sep),
    ensures
        split_on(x + b, sep).len() == split_on(x, sep).len(),
        split_on(x + b, sep) == split_on(x, sep).update(
            split_on(x, sep).len() - 1,
            split_on(x, sep).last() + b,
        ),
    decreases b.len(),
{
    lemma_split_nonempty(x, sep);
    let pieces = split_on(x, sep);
    if b.len() == 0 {
        assert(x + b =~= x);
        assert(pieces.last() + b =~= pieces.last());
        assert(pieces.update(pieces.len() - 1, pieces.last()) =~= pieces);
    } else {
        let init = b.drop_last();
        assert(!init.contains(sep)) by {
            if init.contains(sep) {
                let k = choose|k: int| 0 <= k < init.len() && init[k] == sep;
                assert(b[k] == sep);
            }
        }
        assert(b.last() != sep) by {
            assert(b[b.len() - 1] == b.last());
        }
        lemma_split_append_free(x, init, sep);
        assert((x + b).drop_last() =~= x + init);
        assert((x + b).last() == b.last());
        assert((pieces.last() + init).push(b.last()) =~= pieces.last() + b);
        assert(split_on(x + b, sep) =~= pieces.update(pieces.len() - 1, pieces.last() + b));
    }
}

/// Joining pieces that hold no separator and splitting the result again gives
/// back the pieces; only an empty list is lost, as it joins to the same empty
/// text as a list of one empty piece.
pub proof fn lemma_join_split<A>(pieces: Seq<Seq<A>>, sep: A)
    requires
        pieces.len() >= 1,
        forall|i: int| 0 <= i < pieces.len() ==> !(#[trigger] pieces[i]).contains(sep),
    ensures
        split_on(join_with(pieces, sep), sep) == pieces,
    decreases pieces.len(),
{
    if pieces.len() == 1 {
        let e = Seq::<A>::empty();
        lemma_split_append_free(e, pieces[0], sep);
        assert(e + pieces[0] =~= pieces[0]);
        assert(split_on(e, sep) =~= seq![e]);
        assert(e + pieces[0] =~= pieces[0]);
        assert(split_on(pieces[0], sep) =~= pieces);
    } else {
        let init = pieces.drop_last();
        let last = pieces.last();
        assert(forall|i: int| 0 <= i < init.len() ==> #[trigger] init[i] == pieces[i]);
        assert(!last.contains(sep)) by {
            assert(pieces[pieces.len() - 1] == last);
        }
        lemma_join_split(init, sep);
        let x = join_with(init, sep) + seq![sep];
        assert(x.drop_last() =~= join_with(init, sep));
        assert(split_on(x, sep) == init.push(Seq::<A>::empty()));
        lemma_split_append_free(x, last, sep);
        assert(Seq::<A>::empty() + last =~= last);
        assert(join_with(pieces, sep) == x + last);
        assert(split_on(x + last, sep) =~= pieces);
    }
}

/// Splits an optional tag string at `;`; no string gives no tags.
pub fn tag_iter(s: Option<&str>) -> (r: Vec<String>)
    ensures
        r@.map_values(|t: String| t@) == tag_list(
            match s {
                None => None,
                Some(t) => Some(t@),
            },
        ),
        s is None ==> r@.len() == 0,
        s matches Some(text) ==> r@.map_values(|t: String| t@) == split_on(text@, ';'),
        s matches Some(text) ==> join_with(r@.map_values(|t: String| t@), ';') == text@,
        forall|i: int| 0 <= i < r@.len() ==> !(#[trigger] r@[i])@.contains(';'),
{
    let mut pieces: Vec<String> = Vec::new();
    let text = match s {
        None => {
            proof {
                assert(pieces@.map_values(|t: String| t@) =~= Seq::<Seq<char>>::empty());
            }
            return pieces;
        },
        Some(t) => t,
    };
    let n = text.unicode_len();
    let mut current = String::new();
    let mut i: usize = 0;
    proof {
        assert(text@.take(0) =~= Seq::<char>::empty());
        assert(pieces@.map_values(|t: String| t@).push(current@) =~= split_on(text@.take(0), ';'));
    }
    while i < n
        invariant
            n == text@.len(),
            i <= n,
            pieces@.map_values(|t: String| t@).push(current@) == split_on(text@.take(i as int), ';'),
        decreases n - i,
    {
        let c = text.get_char(i);
        let ghost before = pieces@.map_values(|t: String| t@).push(current@);
        proof {
            assert(text@.take(i + 1).drop_last() =~= text@.take(i as int));
            assert(text@.take(i + 1).last() == c);
        }
        if c == ';' {
            let done = current;
            pieces.push(done);
            current = String::new();
            proof {
                assert(pieces@.map_values(|t: String| t@).push(current@) =~= before.push(Seq::empty()));
            }
        } else {
            current.push(c);
            proof {
                assert(pieces@.map_values(|t: String| t@).push(current@) =~= before.update(
                    before.len() - 1,
                    before.last().push(c),
                ));
            }
        }
        i += 1;
    }
    let ghost last_views = pieces@.map_values(|t: String| t@).push(current@);
    pieces.push(current);
    proof {
        assert(text@.take(n as int) =~= text@);
        lemma_tag_list_splits(text@);
        let views = pieces@.map_values(|t: String| t@);
        assert(views =~= last_views);
        assert(views == tag_list(Some(text@)));
        assert forall|i: int| 0 <= i < pieces@.len() implies !(#[trigger] pieces@[i])@.contains(
            ';',
        ) by {
            assert(views[i] == pieces@[i]@);
        }
    }
    pieces
}

} // verus!
