use vstd::prelude::*;
use vstd::string::StrSliceExecFns;

verus! {

/// Lifetime of a login session, in seconds, unless configured otherwise.
pub fn default_session_max_age_seconds() -> (r: i64)
    ensures
        r == 30 * 60,
{
    30 * 60
}

/// Lifetime of a Jitsi token, in seconds, unless configured otherwise.
pub fn default_jwt_max_age_seconds() -> (r: i64)
    ensures
        r == 5 * 60,
{
    5 * 60
}

/// Total timeout of a request to the identity provider, in seconds.
pub fn default_http_timeout_seconds() -> (r: u64)
    ensures
        r == 15,
{
    15
}

/// Connect timeout of a request to the identity provider, in seconds.
pub fn default_http_connect_timeout_seconds() -> (r: u64)
    ensures
        r == 5,
{
    5
}

/// Address the server listens on unless configured otherwise: 127.0.0.1, port 3000.
pub fn default_listen_addr() -> (r: ([u8; 4], u16))
    ensures
        r.0@ == seq![127u8, 0u8, 0u8, 1u8],
        r.1 == 3000,
{
    ([127, 0, 0, 1], 3000)
}

/// The pieces of `s` between single spaces, as `str::split(' ')` yields them:
/// empty pieces are kept, and the empty text has one empty piece.
pub open spec fn split_spaces(s: Seq<char>) -> Seq<Seq<char>>
    decreases s.len(),
{
    if s.len() == 0 {
        seq![Seq::<char>::empty()]
    } else {
        let rest = split_spaces(s.drop_last());
        if s.last() == ' ' {
            rest.push(Seq::<char>::empty())
        } else {
            rest.update(rest.len() - 1, rest.last().push(s.last()))
        }
    }
}

/// The pieces joined again, with one space between two neighbours.
pub open spec fn join_spaces(pieces: Seq<Seq<char>>) -> Seq<char>
    decreases pieces.len(),
{
    if pieces.len() == 0 {
        Seq::<char>::empty()
    } else if pieces.len() == 1 {
        pieces[0]
    } else {
        join_spaces(pieces.drop_last()) + seq![' '] + pieces.last()
    }
}

/// The views of a list of strings.
pub open spec fn string_views(v: Seq<String>) -> Seq<Seq<char>> {
    v.map_values(|x: String| x@)
}

/// What a configured list in one text becomes: nothing stays nothing, a text
/// becomes its space-separated pieces.
pub open spec fn spec_list_of(input: Option<Seq<char>>) -> Option<Seq<Seq<char>>> {
    match input {
        None => None,
        Some(s) => Some(split_spaces(s)),
    }
}

pub open spec fn option_view(o: Option<String>) -> Option<Seq<char>> {
    match o {
        None => None,
        Some(s) => Some(s@),
    }
}

pub open spec fn option_list_view(o: Option<Vec<String>>) -> Option<Seq<Seq<char>>> {
    match o {
        None => None,
        Some(v) => Some(string_views(v@)),
    }
}

proof fn lemma_split_nonempty(s: Seq<char>)
    ensures
        split_spaces(s).len() >= 1,
    decreases s.len(),
{
    if s.len() > 0 {
        lemma_split_nonempty(s.drop_last());
    }
}

/// Splitting a text at its spaces and joining the pieces with spaces gives the
/// text back, and no piece holds a space.
pub proof fn lemma_split_join_roundtrip(s: Seq<char>)
    ensures
        join_spaces(split_spaces(s)) == s,
        forall|i: int| 0 <= i < split_spaces(s).len() ==> !(#[trigger] split_spaces(s)[i]).contains(' '),
    decreases s.len(),
{
    if s.len() > 0 {
        let t = s.drop_last();
        lemma_split_join_roundtrip(t);
        lemma_split_nonempty(t);
        let rest = split_spaces(t);
        let c = s.last();
        if c == ' ' {
            let r = rest.push(Seq::<char>::empty());
            assert(r.drop_last() =~= rest);
            assert(join_spaces(r) =~= join_spaces(rest) + seq![' '] + Seq::<char>::empty());
            assert(s =~= t + seq![' ']);
            assert forall|i: int| 0 <= i < r.len() implies !(#[trigger] r[i]).contains(' ') by {
                if i < rest.len() {
                    assert(r[i] == rest[i]);
                } else {
                    assert(r[i] =~= Seq::<char>::empty());
                }
            }
        } else {
            let n = rest.len();
            let r = rest.update(n - 1, rest.last().push(c));
            if n == 1 {
                assert(join_spaces(r) == r[0]);
                assert(join_spaces(rest) == rest[0]);
                assert(s =~= t.push(c));
            } else {
                assert(r.drop_last() =~= rest.drop_last());
                assert(join_spaces(r) == join_spaces(rest.drop_last()) + seq![' '] + rest.last().push(c));
                assert(join_spaces(rest) == join_spaces(rest.drop_last()) + seq![' '] + rest.last());
                assert(s =~= t.push(c));
                assert(join_spaces(r) =~= join_spaces(rest).push(c));
            }
            assert forall|i: int| 0 <= i < r.len() implies !(#[trigger] r[i]).contains(' ') by {
                if i < n - 1 {
                    assert(r[i] == rest[i]);
                } else {
                    assert(!rest[n - 1].contains(' '));
                    let p = rest[n - 1].push(c);
                    assert(r[i] == p);
                    if p.contains(' ') {
                        let j = choose|j: int| 0 <= j < p.len() && p[j] == ' ';
                        if j < rest[n - 1].len() {
                            assert(rest[n - 1][j] == ' ');
                        }
                    }
                }
            }
        }
    }
}

/// Splits `s` at every single space, as `s.split(' ')` does.
pub fn split_on_spaces(s: &str) -> (r: Vec<String>)
    ensures
        string_views(r@) == split_spaces(s@),
{
    let n = s.unicode_len();
    let mut pieces: Vec<String> = Vec::new();
    let mut start: usize = 0;
    let mut i: usize = 0;
    proof {
        assert(s@.subrange(0, 0) =~= Seq::<char>::empty());
        assert(string_views(pieces@).push(s@.subrange(0, 0)) =~= seq![Seq::<char>::empty()]);
    }
    while i < n
        invariant
            n == s@.len(),
            start <= i <= n,
            string_views(pieces@).push(s@.subrange(start as int, i as int)) == split_spaces(
                s@.subrange(0, i as int),
            ),
        decreases n - i,
    {
        let c = s.get_char(i);
        proof {
            let t = s@.subrange(0, i as int + 1);
            assert(t.drop_last() =~= s@.subrange(0, i as int));
            assert(t.last() == c);
        }
        if c == ' ' {
            let piece = s.substring_char(start, i).to_owned();
            pieces.push(piece);
            proof {
                assert(string_views(pieces@) =~= string_views(pieces@.drop_last()).push(
                    s@.subrange(start as int, i as int),
                ));
                assert(s@.subrange(i as int + 1, i as int + 1) =~= Seq::<char>::empty());
            }
            start = i + 1;
        } else {
            proof {
                let old_views = string_views(pieces@).push(s@.subrange(start as int, i as int));
                assert(s@.subrange(start as int, i as int + 1) =~= s@.subrange(
                    start as int,
                    i as int,
                ).push(c));
                assert(string_views(pieces@).push(s@.subrange(start as int, i as int + 1))
                    =~= old_views.update(old_views.len() - 1, old_views.last().push(c)));
            }
        }
        i = i + 1;
    }
    let last = s.substring_char(start, n).to_owned();
    pieces.push(last);
    proof {
        assert(s@.subrange(0, n as int) =~= s@);
        assert(string_views(pieces@) =~= string_views(pieces@.drop_last()).push(
            s@.subrange(start as int, n as int),
        ));
    }
    pieces
}

/// A configured list of plain strings, given as one space-separated text.
pub fn string_array2(input: Option<String>) -> (r: Option<Vec<String>>)
    ensures
        option_list_view(r) == spec_list_of(option_view(input)),
{
    match input {
        None => None,
        Some(text) => Some(split_on_spaces(text.as_str())),
    }
}

/// The configured authentication context classes, given as one space-separated
/// text; each piece is the text of one class.
pub fn string_array(input: Option<String>) -> (r: Option<Vec<String>>)
    ensures
        option_list_view(r) == spec_list_of(option_view(input)),
{
    match input {
        None => None,
        Some(text) => Some(split_on_spaces(text.as_str())),
    }
}

/// The configured certificate files, given as one space-separated text; each
/// piece is the text of one path.
pub fn path_array(input: Option<String>) -> (r: Option<Vec<String>>)
    ensures
        option_list_view(r) == spec_list_of(option_view(input)),
{
    match input {
        None => None,
        Some(text) => Some(split_on_spaces(text.as_str())),
    }
}

} // verus!
