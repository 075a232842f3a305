//! Default data directories: the per-user data home and the first installed
//! system directory among a list of candidates. What exists on disk, and the
//! environment, are read by the caller and handed in as plain values.
use vstd::prelude::*;
use vstd::string::*;
use crate::schema_list::strings_view;
use crate::text::concat_strings;

verus! {

/// `part` appended to `base` as a path: a separator goes between them
/// unless `base` is empty or already ends with one.
pub open spec fn joined(base: Seq<char>, part: Seq<char>) -> Seq<char> {
    if base.len() == 0 {
        part
    } else if base.last() == '/' {
        base + part
    } else {
        base + seq!['/'] + part
    }
}

/// `part` appended to `base` as a path (`part` is relative).
pub fn join_path(base: &String, part: &str) -> (p: String)
    ensures
        p@ == joined(base@, part@),
{
    let n = base.as_str().unicode_len();
    let tail = part.to_owned();
    if n == 0 {
        return tail;
    }
    if base.as_str().get_char(n - 1) == '/' {
        concat_strings(base, &tail)
    } else {
        let sep = "/".to_owned();
        proof {
            reveal_strlit("/");
        }
        let with_sep = concat_strings(base, &sep);
        let p = concat_strings(&with_sep, &tail);
        assert(p@ =~= base@ + seq!['/'] + part@);
        p
    }
}

/// The per-user data directory: `$XDG_DATA_HOME` when set, else
/// `$HOME/.local/share`, else the current directory.
pub open spec fn data_home_of(xdg_data_home: Option<Seq<char>>, home: Option<Seq<char>>) -> Seq<char> {
    match xdg_data_home {
        Some(x) => x,
        None => match home {
            Some(h) => joined(h, ".local/share"@),
            None => seq!['.'],
        },
    }
}

/// The per-user data directory from the values of `XDG_DATA_HOME` and
/// `HOME` (`None` where unset).
pub fn data_home(xdg_data_home: Option<String>, home: Option<String>) -> (d: String)
    ensures
        d@ == data_home_of(
            match xdg_data_home {
                Some(x) => Some(x@),
                None => None,
            },
            match home {
                Some(h) => Some(h@),
                None => None,
            },
        ),
{
    proof {
        reveal_strlit(".local/share");
        reveal_strlit(".");
    }
    match xdg_data_home {
        Some(x) => x,
        None => match home {
            Some(h) => join_path(&h, ".local/share"),
            None => ".".to_owned(),
        },
    }
}

/// The first candidate marked present (candidates past the end of
/// `present` count as absent), else `fallback`.
pub open spec fn first_present(cands: Seq<Seq<char>>, present: Seq<bool>, fallback: Seq<char>) -> Seq<char>
    decreases cands.len(),
{
    if cands.len() == 0 || present.len() == 0 {
        fallback
    } else if present[0] {
        cands[0]
    } else {
        first_present(cands.drop_first(), present.drop_first(), fallback)
    }
}

/// The first of `cands` whose entry in `present` is true, else `fallback`.
pub fn pick_present(cands: &Vec<String>, present: &Vec<bool>, fallback: &String) -> (r: String)
    ensures
        r@ == first_present(strings_view(cands@), present@, fallback@),
{
    let mut i: usize = 0;
    assert(strings_view(cands@).skip(0) =~= strings_view(cands@));
    assert(present@.skip(0) =~= present@);
    while i < cands.len() && i < present.len()
        invariant
            i <= cands.len(),
            i <= present.len(),
            first_present(strings_view(cands@), present@, fallback@) == first_present(
                strings_view(cands@).skip(i as int),
                present@.skip(i as int),
                fallback@,
            ),
        decreases cands.len() - i,
    {
        let ghost c = strings_view(cands@).skip(i as int);
        let ghost p = present@.skip(i as int);
        if present[i] {
            assert(c[0] == cands@[i as int]@);
            return cands[i].clone();
        }
        assert(c.drop_first() =~= strings_view(cands@).skip(i + 1));
        assert(p.drop_first() =~= present@.skip(i + 1));
        i = i + 1;
    }
    assert(strings_view(cands@).skip(i as int).len() == 0 || present@.skip(i as int).len() == 0);
    fallback.clone()
}

} // verus!
