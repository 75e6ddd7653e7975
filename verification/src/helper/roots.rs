//! The roots the helper is started with: `id=path` entries separated by
//! `;`, as its environment gives them.
use vstd::prelude::*;

use crate::config::{AllowedRoot, RootId};
use crate::strings::substring;
use vstd::string::StrSliceExecFns;

verus! {

/// The pieces of `s` between the separators `c`, empty pieces included.
pub open spec fn split_on(s: Seq<char>, c: char) -> Seq<Seq<char>>
    decreases s.len(),
{
    if s.len() == 0 {
        seq![Seq::<char>::empty()]
    } else {
        let rest = split_on(s.drop_last(), c);
        if s.last() == c {
            rest.push(Seq::<char>::empty())
        } else {
            rest.update(rest.len() - 1, rest.last().push(s.last()))
        }
    }
}

proof fn lemma_split_on_nonempty(s: Seq<char>, c: char)
    ensures
        split_on(s, c).len() >= 1,
    decreases s.len(),
{
    if s.len() > 0 {
        lemma_split_on_nonempty(s.drop_last(), c);
    }
}

proof fn lemma_split_on_step(s: Seq<char>, c: char, i: int, done: Seq<Seq<char>>, start: int)
    requires
        0 <= start <= i < s.len(),
        split_on(s.subrange(0, i), c) == done + seq![s.subrange(start, i)],
    ensures
        s[i] == c ==> split_on(s.subrange(0, i + 1), c) == (done + seq![s.subrange(start, i)]) + seq![
            s.subrange(i + 1, i + 1),
        ],
        s[i] != c ==> split_on(s.subrange(0, i + 1), c) == done + seq![s.subrange(start, i + 1)],
{
    let t = s.subrange(0, i + 1);
    assert(t.drop_last() =~= s.subrange(0, i));
    assert(t.last() == s[i]);
    if s[i] == c {
        assert(s.subrange(i + 1, i + 1) =~= Seq::<char>::empty());
        assert(split_on(t, c) =~= (done + seq![s.subrange(start, i)]) + seq![s.subrange(i + 1, i + 1)]);
    } else {
        assert(s.subrange(start, i).push(s[i]) =~= s.subrange(start, i + 1));
        assert(split_on(t, c) =~= done + seq![s.subrange(start, i + 1)]);
    }
}

/// The position of the first `c` in `s`, or `-1`.
pub open spec fn first_index_of(s: Seq<char>, c: char) -> int
    decreases s.len(),
{
    if s.len() == 0 {
        -1
    } else if s[0] == c {
        0
    } else {
        let rest = first_index_of(s.drop_first(), c);
        if rest < 0 {
            -1
        } else {
            rest + 1
        }
    }
}

/// The root an entry names: what comes before its first `=` and what comes
/// after it, both nonempty.
pub open spec fn root_entry(e: Seq<char>) -> Option<(Seq<char>, Seq<char>)> {
    let k = first_index_of(e, '=');
    if k < 0 {
        None
    } else {
        let id = e.subrange(0, k);
        let path = e.subrange(k + 1, e.len() as int);
        if id.len() == 0 || path.len() == 0 {
            None
        } else {
            Some((id, path))
        }
    }
}

/// The roots the entries name, in order, skipping the entries that name
/// none.
pub open spec fn roots_named(entries: Seq<Seq<char>>) -> Seq<(Seq<char>, Seq<char>)>
    decreases entries.len(),
{
    if entries.len() == 0 {
        Seq::empty()
    } else {
        let rest = roots_named(entries.drop_last());
        match root_entry(entries.last()) {
            Some(r) => rest.push(r),
            None => rest,
        }
    }
}

/// A root the helper is started with: none of the root's permissions.
pub open spec fn env_root(r: AllowedRoot, named: (Seq<char>, Seq<char>)) -> bool {
    &&& r.root_id.0@ == named.0
    &&& r.base_path@ == named.1
    &&& !r.read_only
    &&& !r.uploads_allowed
    &&& !r.hidden_files_allowed
    &&& !r.is_web_root
}

fn find_first(s: &str, c: char) -> (k: Option<usize>)
    ensures
        match k {
            Some(i) => i == first_index_of(s@, c) && 0 <= i < s@.len(),
            None => first_index_of(s@, c) < 0,
        },
{
    let n = s.unicode_len();
    let mut i: usize = 0;
    while i < n
        invariant
            n == s@.len(),
            i <= n,
            forall|j: int| 0 <= j < i ==> s@[j] != c,
        decreases n - i,
    {
        if s.get_char(i) == c {
            proof {
                lemma_first_index(s@, c, i as int);
            }
            return Some(i);
        }
        i = i + 1;
    }
    proof {
        lemma_first_index_none(s@, c);
    }
    None
}

proof fn lemma_first_index(s: Seq<char>, c: char, i: int)
    requires
        0 <= i < s.len(),
        s[i] == c,
        forall|j: int| 0 <= j < i ==> s[j] != c,
    ensures
        first_index_of(s, c) == i,
    decreases i,
{
    if i > 0 {
        assert forall|j: int| 0 <= j < i - 1 implies s.drop_first()[j] != c by {
            assert(s.drop_first()[j] == s[j + 1]);
        }
        lemma_first_index(s.drop_first(), c, i - 1);
    }
}

proof fn lemma_first_index_none(s: Seq<char>, c: char)
    requires
        forall|j: int| 0 <= j < s.len() ==> s[j] != c,
    ensures
        first_index_of(s, c) < 0,
    decreases s.len(),
{
    if s.len() > 0 {
        assert forall|j: int| 0 <= j < s.len() - 1 implies s.drop_first()[j] != c by {
            assert(s.drop_first()[j] == s[j + 1]);
        }
        lemma_first_index_none(s.drop_first(), c);
    }
}

fn entry_root(e: &str) -> (r: Option<AllowedRoot>)
    ensures
        match (r, root_entry(e@)) {
            (Some(root), Some(named)) => env_root(root, named),
            (None, None) => true,
            _ => false,
        },
{
    let n = e.unicode_len();
    let k = match find_first(e, '=') {
        Some(k) => k,
        None => return None,
    };
    if k == 0 || k + 1 == n {
        return None;
    }
    Some(AllowedRoot {
        root_id: RootId(substring(e, 0, k)),
        base_path: substring(e, k + 1, n),
        read_only: false,
        uploads_allowed: false,
        hidden_files_allowed: false,
        is_web_root: false,
    })
}

/// The roots a `;`-separated list of `id=path` entries names, with none of
/// a root's permissions; entries without both parts are skipped.
pub fn allowed_roots_from_value(value: &str) -> (roots: Vec<AllowedRoot>)
    ensures
        roots@.len() == roots_named(split_on(value@, ';')).len(),
        forall|i: int| 0 <= i < roots@.len() ==> env_root(#[trigger] roots@[i], roots_named(split_on(value@, ';'))[i]),
{
    let n = value.unicode_len();
    let mut roots: Vec<AllowedRoot> = Vec::new();
    let mut start: usize = 0;
    let mut i: usize = 0;
    let ghost mut done: Seq<Seq<char>> = Seq::empty();
    assert(value@.subrange(0, 0) =~= Seq::<char>::empty());
    while i < n
        invariant
            n == value@.len(),
            start <= i <= n,
            split_on(value@.subrange(0, i as int), ';') == done + seq![value@.subrange(start as int, i as int)],
            roots@.len() == roots_named(done).len(),
            forall|j: int| 0 <= j < roots@.len() ==> env_root(#[trigger] roots@[j], roots_named(done)[j]),
        decreases n - i,
    {
        proof {
            lemma_split_on_step(value@, ';', i as int, done, start as int);
        }
        if value.get_char(i) == ';' {
            let piece = substring(value, start, i);
            let ghost before = done;
            proof {
                done = done + seq![value@.subrange(start as int, i as int)];
                assert(done.drop_last() =~= before);
            }
            match entry_root(piece.as_str()) {
                Some(r) => roots.push(r),
                None => {},
            }
            start = i + 1;
        }
        i = i + 1;
    }
    let piece = substring(value, start, n);
    let ghost before = done;
    proof {
        done = done + seq![value@.subrange(start as int, n as int)];
        assert(done.drop_last() =~= before);
        assert(value@.subrange(0, n as int) =~= value@);
    }
    match entry_root(piece.as_str()) {
        Some(r) => roots.push(r),
        None => {},
    }
    roots
}

} // verus!
