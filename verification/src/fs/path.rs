use vstd::prelude::*;

use crate::config::{clone_allowed_root, clone_root_id, AllowedRoot, RelativePath, RootId};
use crate::fs::components::{path_join, path_starts_with, spec_path_join, spec_path_starts_with};
use crate::fs::filename::valid_filename;
use crate::fs::filename::spec_filename_error;
use crate::errors::TealDriveError;
use crate::helper::errors::{IoErrorKind, IoFailure};
use crate::fs::filename::{dot, dot_dot, SafeFileName};
use crate::strings::{chars_of, concat, substring};
use vstd::string::StrSliceExecFns;

verus! {

/// The pieces of `s` between slashes, empty pieces included.
pub open spec fn split_slash(s: Seq<char>) -> Seq<Seq<char>>
    decreases s.len(),
{
    if s.len() == 0 {
        seq![Seq::<char>::empty()]
    } else {
        let rest = split_slash(s.drop_last());
        if s.last() == '/' {
            rest.push(Seq::<char>::empty())
        } else {
            rest.update(rest.len() - 1, rest.last().push(s.last()))
        }
    }
}

/// A piece that names an entry: not empty, neither `.` nor `..`.
pub open spec fn is_entry_name(piece: Seq<char>) -> bool {
    piece.len() > 0 && piece != dot() && piece != dot_dot()
}

/// The pieces that name entries, in order.
pub open spec fn entry_names(pieces: Seq<Seq<char>>) -> Seq<Seq<char>>
    decreases pieces.len(),
{
    if pieces.len() == 0 {
        Seq::empty()
    } else {
        let rest = entry_names(pieces.drop_last());
        if is_entry_name(pieces.last()) {
            rest.push(pieces.last())
        } else {
            rest
        }
    }
}

/// Whether some piece is `..`.
pub open spec fn has_parent_ref(pieces: Seq<Seq<char>>) -> bool {
    exists|i: int| 0 <= i < pieces.len() && pieces[i] == dot_dot()
}

/// The names joined with single slashes.
pub open spec fn join_slash(names: Seq<Seq<char>>) -> Seq<char>
    decreases names.len(),
{
    if names.len() == 0 {
        Seq::empty()
    } else if names.len() == 1 {
        names[0]
    } else {
        join_slash(names.drop_last()) + seq!['/'] + names.last()
    }
}

/// What validating a relative path gives: NUL and a leading `/` are refused
/// first, then any `..` piece; otherwise the entry names, joined with single
/// slashes (empty and `.` pieces dropped).
pub open spec fn spec_validate_relative_path(s: Seq<char>) -> Result<Seq<char>, TealDriveError> {
    if s.contains('\0') {
        Err(TealDriveError::NullByteRejected)
    } else if s.len() > 0 && s[0] == '/' {
        Err(TealDriveError::AbsolutePathRejected)
    } else if has_parent_ref(split_slash(s)) {
        Err(TealDriveError::TraversalRejected)
    } else {
        Ok(join_slash(entry_names(split_slash(s))))
    }
}

pub(crate) proof fn lemma_split_slash_nonempty(s: Seq<char>)
    ensures
        split_slash(s).len() >= 1,
    decreases s.len(),
{
    if s.len() > 0 {
        lemma_split_slash_nonempty(s.drop_last());
    }
}

/// Scanning one more character: a slash closes the current piece, any other
/// character extends it.
pub(crate) proof fn lemma_split_step(s: Seq<char>, i: int, done: Seq<Seq<char>>, start: int)
    requires
        0 <= start <= i < s.len(),
        split_slash(s.subrange(0, i)) == done + seq![s.subrange(start, i)],
    ensures
        s[i] == '/' ==> split_slash(s.subrange(0, i + 1)) == (done + seq![s.subrange(start, i)])
            + seq![s.subrange(i + 1, i + 1)],
        s[i] != '/' ==> split_slash(s.subrange(0, i + 1)) == done + seq![s.subrange(start, i + 1)],
{
    let t = s.subrange(0, i + 1);
    assert(t.drop_last() =~= s.subrange(0, i));
    assert(t.last() == s[i]);
    if s[i] == '/' {
        assert(s.subrange(i + 1, i + 1) =~= Seq::<char>::empty());
        assert(split_slash(t) =~= (done + seq![s.subrange(start, i)]) + seq![s.subrange(i + 1, i + 1)]);
    } else {
        assert(s.subrange(start, i).push(s[i]) =~= s.subrange(start, i + 1));
        assert(split_slash(t) =~= done + seq![s.subrange(start, i + 1)]);
    }
}

proof fn lemma_entry_names_push(pieces: Seq<Seq<char>>, p: Seq<char>)
    ensures
        entry_names(pieces.push(p)) == if is_entry_name(p) {
            entry_names(pieces).push(p)
        } else {
            entry_names(pieces)
        },
{
    assert(pieces.push(p).drop_last() =~= pieces);
}

proof fn lemma_join_push(names: Seq<Seq<char>>, p: Seq<char>)
    ensures
        join_slash(names.push(p)) == if names.len() == 0 {
            p
        } else {
            join_slash(names) + seq!['/'] + p
        },
{
    assert(names.push(p).drop_last() =~= names);
}

pub fn validate_relative_path(path: &RelativePath) -> (res: Result<RelativePath, TealDriveError>)
    ensures
        match (res, spec_validate_relative_path(path.0@)) {
            (Ok(p), Ok(s)) => p.0@ == s,
            (Err(e), Err(s)) => e == s,
            _ => false,
        },
{
    let s: &str = path.0.as_str();
    let chars = chars_of(s);
    let n = chars.len();
    let mut k: usize = 0;
    while k < n
        invariant
            chars@ == path.0@,
            n == chars@.len(),
            k <= n,
            forall|j: int| 0 <= j < k ==> chars@[j] != '\0',
        decreases n - k,
    {
        if chars[k] == '\0' {
            assert(path.0@[k as int] == '\0');
            return Err(TealDriveError::NullByteRejected);
        }
        k = k + 1;
    }
    assert(!path.0@.contains('\0'));
    if n > 0 && chars[0] == '/' {
        return Err(TealDriveError::AbsolutePathRejected);
    }
    let ghost t = path.0@;
    let ghost mut done: Seq<Seq<char>> = Seq::empty();
    let mut out = String::new();
    let mut count: usize = 0;
    let mut start: usize = 0;
    let mut i: usize = 0;
    assert(t.subrange(0, 0) =~= Seq::<char>::empty());
    assert(split_slash(t.subrange(0, 0)) =~= done + seq![t.subrange(0, 0)]);
    loop
        invariant
            t == path.0@,
            chars@ == t,
            n == t.len(),
            s@ == t,
            !t.contains('\0'),
            !(n > 0 && t[0] == '/'),
            start <= i <= n,
            split_slash(t.subrange(0, i as int)) == done + seq![t.subrange(start as int, i as int)],
            !has_parent_ref(done),
            out@ == join_slash(entry_names(done)),
            count == entry_names(done).len(),
            count <= i,
        ensures
            i == n,
            split_slash(t) == done + seq![t.subrange(start as int, n as int)],
            !has_parent_ref(done),
            out@ == join_slash(entry_names(done)),
            count == entry_names(done).len(),
        decreases n - i,
    {
        if i == n {
            assert(t.subrange(0, n as int) =~= t);
            break;
        }
        if chars[i] == '/' {
            proof {
                lemma_split_step(t, i as int, done, start as int);
            }
            let piece = substring(s, start, i);
            let is_parent = i - start == 2 && chars[start] == '.' && chars[start + 1] == '.';
            let is_dot = i - start == 1 && chars[start] == '.';
            proof {
                let p = t.subrange(start as int, i as int);
                if i - start == 2 {
                    assert(is_parent == (p =~= dot_dot()));
                } else {
                    assert(p.len() != 2);
                }
                if i - start == 1 {
                    assert(p[0] == t[start as int]);
                    assert(is_dot == (p =~= dot()));
                } else {
                    assert(p.len() != 1);
                }
            }
            if is_parent {
                proof {
                    let pieces = split_slash(t);
                    let p = t.subrange(start as int, i as int);
                    assert(p =~= dot_dot());
                    assert(split_slash(t.subrange(0, i + 1)) == (done + seq![p]) + seq![t.subrange(i + 1, i + 1)]);
                    lemma_split_prefix_piece(t, i as int + 1, done + seq![p], done.len() as int);
                }
                return Err(TealDriveError::TraversalRejected);
            }
            proof {
                let p = t.subrange(start as int, i as int);
                lemma_entry_names_push(done, p);
                lemma_join_push(entry_names(done), p);
                assert(is_entry_name(p) == (i > start && !is_dot));
                assert(piece@ == p);
            }
            if i > start && !is_dot {
                if count > 0 {
                    out = concat(out.as_str(), "/");
                    proof { reveal_strlit("/"); assert("/"@ =~= seq!['/']); }
                }
                out = concat(out.as_str(), piece.as_str());
                count = count + 1;
            }
            proof {
                assert(done + seq![t.subrange(start as int, i as int)] =~= done.push(t.subrange(start as int, i as int)));
                done = done.push(t.subrange(start as int, i as int));
                assert(!has_parent_ref(done)) by {
                    assert forall|j: int| 0 <= j < done.len() implies done[j] != dot_dot() by {
                        if j == done.len() - 1 {
                            assert(!(t.subrange(start as int, i as int) =~= dot_dot()));
                        }
                    }
                }
            }
            start = i + 1;
            i = i + 1;
        } else {
            proof {
                lemma_split_step(t, i as int, done, start as int);
            }
            i = i + 1;
        }
    }
    let last = substring(s, start, n);
    let is_parent = n - start == 2 && chars[start] == '.' && chars[start + 1] == '.';
    let is_dot = n - start == 1 && chars[start] == '.';
    let ghost p = t.subrange(start as int, n as int);
    proof {
        if n - start == 2 {
            assert(is_parent == (p =~= dot_dot()));
        } else {
            assert(p.len() != 2);
        }
        if n - start == 1 {
            assert(p[0] == t[start as int]);
            assert(is_dot == (p =~= dot()));
        } else {
            assert(p.len() != 1);
        }
    }
    if is_parent {
        assert(split_slash(t)[done.len() as int] == p);
        return Err(TealDriveError::TraversalRejected);
    }
    proof {
        lemma_entry_names_push(done, p);
        lemma_join_push(entry_names(done), p);
        assert(split_slash(t) == done.push(p));
        assert(!has_parent_ref(split_slash(t))) by {
            assert forall|j: int| 0 <= j < split_slash(t).len() implies split_slash(t)[j] != dot_dot() by {
                if j < done.len() {
                    assert(split_slash(t)[j] == done[j]);
                }
            }
        }
    }
    assert(is_entry_name(p) == (n > start && !is_dot));
    assert(last@ == p);
    if n > start && !is_dot {
        if count > 0 {
            out = concat(out.as_str(), "/");
            proof { reveal_strlit("/"); assert("/"@ =~= seq!['/']); }
        }
        out = concat(out.as_str(), last.as_str());
    }
    Ok(RelativePath(out))
}

/// The pieces of a prefix of `s` are a prefix of the pieces of `s`, up to the
/// last one, which may still grow.
proof fn lemma_split_prefix_piece(s: Seq<char>, k: int, pre: Seq<Seq<char>>, j: int)
    requires
        0 <= k <= s.len(),
        split_slash(s.subrange(0, k)) == pre + seq![s.subrange(k, k)],
        0 <= j < pre.len(),
    ensures
        split_slash(s)[j] == pre[j],
        j < split_slash(s).len(),
    decreases s.len() - k,
{
    if k == s.len() {
        assert(s.subrange(0, k) =~= s);
    } else {
        lemma_split_slash_nonempty(s.subrange(0, k + 1));
        let t = s.subrange(0, k + 1);
        assert(t.drop_last() =~= s.subrange(0, k));
        lemma_split_prefix_grow(s, k, pre, j);
    }
}

proof fn lemma_split_prefix_grow(s: Seq<char>, k: int, pre: Seq<Seq<char>>, j: int)
    requires
        0 <= k < s.len(),
        split_slash(s.subrange(0, k)).len() == pre.len() + 1,
        forall|m: int| 0 <= m < pre.len() ==> split_slash(s.subrange(0, k))[m] == pre[m],
        0 <= j < pre.len(),
    ensures
        split_slash(s)[j] == pre[j],
        j < split_slash(s).len(),
    decreases s.len() - k,
{
    let t = s.subrange(0, k + 1);
    assert(t.drop_last() =~= s.subrange(0, k));
    lemma_split_slash_nonempty(s.subrange(0, k));
    let next = split_slash(t);
    assert(next.len() >= pre.len() + 1);
    assert(forall|m: int| 0 <= m < pre.len() ==> next[m] == pre[m]);
    if k + 1 == s.len() {
        assert(t =~= s);
    } else {
        let pre2 = next.subrange(0, next.len() - 1);
        assert(forall|m: int| 0 <= m < pre2.len() ==> next[m] == pre2[m]);
        lemma_split_prefix_grow(s, k + 1, pre2, j);
        assert(pre2[j] == pre[j]);
    }
}

/// Appending characters other than `/` only extends the last piece.
proof fn lemma_split_append_plain(a: Seq<char>, b: Seq<char>)
    requires
        !b.contains('/'),
    ensures
        split_slash(a + b) == split_slash(a).update(
            split_slash(a).len() - 1,
            split_slash(a).last() + b,
        ),
    decreases b.len(),
{
    lemma_split_slash_nonempty(a);
    if b.len() == 0 {
        assert(a + b =~= a);
        assert(split_slash(a).last() + b =~= split_slash(a).last());
        assert(split_slash(a).update(split_slash(a).len() - 1, split_slash(a).last())
            =~= split_slash(a));
    } else {
        let b0 = b.drop_last();
        assert(!b0.contains('/')) by {
            if b0.contains('/') {
                let k = choose|k: int| 0 <= k < b0.len() && b0[k] == '/';
                assert(b[k] == '/');
            }
        }
        lemma_split_append_plain(a, b0);
        assert((a + b).drop_last() =~= a + b0);
        assert((a + b).last() == b.last());
        assert(b.last() != '/') by {
            assert(b[b.len() - 1] == b.last());
        }
        lemma_split_slash_nonempty(a + b0);
        assert((split_slash(a).last() + b0).push(b.last()) =~= split_slash(a).last() + b);
        assert(split_slash(a + b) =~= split_slash(a).update(
            split_slash(a).len() - 1,
            split_slash(a).last() + b,
        ));
    }
}

/// Names free of `/`: every piece of a name is the name itself.
pub open spec fn names_without_slash(names: Seq<Seq<char>>) -> bool {
    forall|i: int| 0 <= i < names.len() ==> !(#[trigger] names[i]).contains('/')
}

/// Splitting a join of slash-free names gives the names back.
proof fn lemma_split_join(names: Seq<Seq<char>>)
    requires
        names.len() >= 1,
        names_without_slash(names),
    ensures
        split_slash(join_slash(names)) == names,
    decreases names.len(),
{
    if names.len() == 1 {
        let e = Seq::<char>::empty();
        lemma_split_append_plain(e, names[0]);
        assert(e + names[0] =~= names[0]);
        assert(split_slash(e) =~= seq![e]);
        assert(e + names[0] =~= names[0]);
        assert(split_slash(names[0]) =~= names);
    } else {
        let front = names.drop_last();
        assert(names_without_slash(front)) by {
            assert forall|i: int| 0 <= i < front.len() implies !(#[trigger] front[i]).contains('/') by {
                assert(front[i] == names[i]);
            }
        }
        lemma_split_join(front);
        let j = join_slash(front);
        let js = j + seq!['/'];
        assert(js.drop_last() =~= j);
        assert(split_slash(js) == split_slash(j).push(Seq::<char>::empty()));
        assert(!names.last().contains('/')) by {
            assert(names[names.len() - 1] == names.last());
        }
        lemma_split_append_plain(js, names.last());
        assert(Seq::<char>::empty() + names.last() =~= names.last());
        assert(split_slash(js + names.last()) =~= names);
    }
}

/// Every character of a piece is a character of the string, and none is `/`.
proof fn lemma_split_chars(s: Seq<char>, i: int, c: char)
    requires
        0 <= i < split_slash(s).len(),
        split_slash(s)[i].contains(c),
    ensures
        s.contains(c),
        c != '/',
    decreases s.len(),
{
    if s.len() == 0 {
        assert(split_slash(s)[i] =~= Seq::<char>::empty());
    } else {
        let s0 = s.drop_last();
        let rest = split_slash(s0);
        lemma_split_slash_nonempty(s0);
        let piece = split_slash(s)[i];
        let k = choose|k: int| 0 <= k < piece.len() && piece[k] == c;
        if s.last() == '/' {
            if i < rest.len() {
                lemma_split_chars(s0, i, c);
                let m = choose|m: int| 0 <= m < s0.len() && s0[m] == c;
                assert(s[m] == c);
            } else {
                assert(piece.len() == 0);
            }
        } else {
            if i < rest.len() - 1 {
                lemma_split_chars(s0, i, c);
                let m = choose|m: int| 0 <= m < s0.len() && s0[m] == c;
                assert(s[m] == c);
            } else {
                assert(piece == rest.last().push(s.last()));
                if k < rest.last().len() {
                    assert(rest.last()[k] == c);
                    assert(rest[rest.len() - 1] == rest.last());
                    lemma_split_chars(s0, rest.len() - 1, c);
                    let m = choose|m: int| 0 <= m < s0.len() && s0[m] == c;
                    assert(s[m] == c);
                } else {
                    assert(c == s.last());
                    assert(s[s.len() - 1] == c);
                }
            }
        }
    }
}

/// Each entry name is one of the pieces, and is an entry name.
proof fn lemma_entry_names_members(pieces: Seq<Seq<char>>, i: int)
    requires
        0 <= i < entry_names(pieces).len(),
    ensures
        is_entry_name(entry_names(pieces)[i]),
        exists|j: int| 0 <= j < pieces.len() && pieces[j] == entry_names(pieces)[i],
    decreases pieces.len(),
{
    let front = pieces.drop_last();
    let rest = entry_names(front);
    if i < rest.len() {
        lemma_entry_names_members(front, i);
        let j = choose|j: int| 0 <= j < front.len() && front[j] == rest[i];
        assert(pieces[j] == front[j]);
    } else {
        assert(pieces[pieces.len() - 1] == pieces.last());
    }
}

/// Keeping the entry names of a list of entry names keeps them all.
proof fn lemma_entry_names_of_names(names: Seq<Seq<char>>)
    requires
        forall|i: int| 0 <= i < names.len() ==> is_entry_name(#[trigger] names[i]),
    ensures
        entry_names(names) == names,
    decreases names.len(),
{
    if names.len() > 0 {
        let front = names.drop_last();
        assert forall|i: int| 0 <= i < front.len() implies is_entry_name(#[trigger] front[i]) by {
            assert(front[i] == names[i]);
        }
        lemma_entry_names_of_names(front);
        assert(is_entry_name(names[names.len() - 1]));
        assert(front.push(names.last()) =~= names);
    }
}

/// A character of a join is `/` or a character of some name.
proof fn lemma_join_chars(names: Seq<Seq<char>>, c: char)
    requires
        join_slash(names).contains(c),
        c != '/',
    ensures
        exists|i: int| 0 <= i < names.len() && (#[trigger] names[i]).contains(c),
    decreases names.len(),
{
    let j = join_slash(names);
    let k = choose|k: int| 0 <= k < j.len() && j[k] == c;
    if names.len() == 1 {
        assert(names[0].contains(c));
    } else {
        let front = names.drop_last();
        let jf = join_slash(front);
        assert(j == jf + seq!['/'] + names.last());
        if k < jf.len() {
            assert(jf[k] == c);
            lemma_join_chars(front, c);
            let i = choose|i: int| 0 <= i < front.len() && (#[trigger] front[i]).contains(c);
            assert(names[i] == front[i]);
        } else if k == jf.len() {
            assert(j[k] == '/');
        } else {
            assert(names.last()[k - jf.len() - 1] == c);
            assert(names[names.len() - 1].contains(c));
        }
    }
}

proof fn lemma_join_first(names: Seq<Seq<char>>)
    requires
        names.len() >= 1,
        names[0].len() > 0,
    ensures
        join_slash(names).len() > 0,
        join_slash(names)[0] == names[0][0],
    decreases names.len(),
{
    if names.len() > 1 {
        let front = names.drop_last();
        assert(front[0] == names[0]);
        lemma_join_first(front);
    }
}

/// A validated path is built of entry names only: it holds no NUL, does not
/// start with `/`, and each of its slash-separated pieces names an entry.
pub proof fn lemma_validated_path_is_normal(s: Seq<char>)
    requires
        spec_validate_relative_path(s) is Ok,
    ensures
        ({
            let n = spec_validate_relative_path(s)->Ok_0;
            &&& !n.contains('\0')
            &&& !(n.len() > 0 && n[0] == '/')
            &&& n.len() > 0 ==> forall|i: int|
                0 <= i < split_slash(n).len() ==> is_entry_name(#[trigger] split_slash(n)[i])
        }),
{
    let pieces = split_slash(s);
    let names = entry_names(pieces);
    let n = join_slash(names);
    assert forall|i: int| 0 <= i < names.len() implies !(#[trigger] names[i]).contains('/') && !names[i].contains('\0') && is_entry_name(names[i]) by {
        lemma_entry_names_members(pieces, i);
        let j = choose|j: int| 0 <= j < pieces.len() && pieces[j] == names[i];
        if names[i].contains('/') {
            lemma_split_chars(s, j, '/');
        }
        if names[i].contains('\0') {
            lemma_split_chars(s, j, '\0');
        }
    }
    if n.contains('\0') {
        lemma_join_chars(names, '\0');
    }
    if names.len() >= 1 {
        lemma_join_first(names);
        assert(!names[0].contains('/'));
        assert(names[0][0] != '/') by {
            if names[0][0] == '/' {
                assert(names[0].contains('/'));
            }
        }
        lemma_split_join(names);
    } else {
        assert(n.len() == 0);
    }
}

/// Validating a validated path changes nothing: validation yields a normal form.
pub proof fn lemma_validate_idempotent(s: Seq<char>)
    requires
        spec_validate_relative_path(s) is Ok,
    ensures
        spec_validate_relative_path(spec_validate_relative_path(s)->Ok_0) == spec_validate_relative_path(s),
{
    let pieces = split_slash(s);
    let names = entry_names(pieces);
    let n = join_slash(names);
    lemma_validated_path_is_normal(s);
    assert forall|i: int| 0 <= i < names.len() implies !(#[trigger] names[i]).contains('/') && is_entry_name(names[i]) by {
        lemma_entry_names_members(pieces, i);
        let j = choose|j: int| 0 <= j < pieces.len() && pieces[j] == names[i];
        if names[i].contains('/') {
            lemma_split_chars(s, j, '/');
        }
    }
    if names.len() >= 1 {
        lemma_split_join(names);
        lemma_entry_names_of_names(names);
        assert(!has_parent_ref(split_slash(n)));
    } else {
        assert(n =~= Seq::<char>::empty());
        assert(split_slash(n) =~= seq![Seq::<char>::empty()]);
        assert(!has_parent_ref(split_slash(n))) by {
            assert(split_slash(n)[0] != dot_dot());
        }
        let e = seq![Seq::<char>::empty()];
        assert(e.drop_last() =~= Seq::<Seq<char>>::empty());
        assert(e.last() =~= Seq::<char>::empty());
        assert(!is_entry_name(e.last()));
        assert(entry_names(Seq::<Seq<char>>::empty()) =~= Seq::<Seq<char>>::empty());
        assert(entry_names(e) =~= Seq::<Seq<char>>::empty());
    }
}

/// The position of the last `/` in `s`, or -1 when there is none.
pub open spec fn last_slash(s: Seq<char>) -> int
    decreases s.len(),
{
    if s.len() == 0 {
        -1
    } else if s.last() == '/' {
        s.len() - 1
    } else {
        last_slash(s.drop_last())
    }
}

proof fn lemma_last_slash(s: Seq<char>)
    ensures
        -1 <= last_slash(s) < s.len(),
        last_slash(s) >= 0 ==> s[last_slash(s)] == '/',
        forall|k: int| last_slash(s) < k < s.len() ==> s[k] != '/',
    decreases s.len(),
{
    if s.len() > 0 && s.last() != '/' {
        lemma_last_slash(s.drop_last());
        assert forall|k: int| last_slash(s) < k < s.len() implies s[k] != '/' by {
            if k < s.len() - 1 {
                assert(s[k] == s.drop_last()[k]);
            }
        }
    }
}

proof fn lemma_last_slash_unique(s: Seq<char>, p: int)
    requires
        -1 <= p < s.len(),
        p >= 0 ==> s[p] == '/',
        forall|k: int| p < k < s.len() ==> s[k] != '/',
    ensures
        last_slash(s) == p,
{
    lemma_last_slash(s);
    if last_slash(s) < p {
        assert(s[p] == '/');
    } else if last_slash(s) > p {
        assert(s[last_slash(s)] == '/');
    }
}

/// The part of `s` before its last `/` and the part after it; with no `/`,
/// nothing and all of `s`.
pub open spec fn spec_rsplit_slash(s: Seq<char>) -> (Seq<char>, Seq<char>) {
    if last_slash(s) < 0 {
        (Seq::empty(), s)
    } else {
        (s.subrange(0, last_slash(s)), s.subrange(last_slash(s) + 1, s.len() as int))
    }
}

/// Finds the last `/` of `s`.
fn find_last_slash(s: &str) -> (pos: Option<usize>)
    ensures
        match pos {
            Some(p) => p == last_slash(s@),
            None => last_slash(s@) < 0,
        },
{
    let n = s.unicode_len();
    let mut i: usize = n;
    while i > 0
        invariant
            n == s@.len(),
            i <= n,
            forall|k: int| i <= k < n ==> s@[k] != '/',
        decreases i,
    {
        if s.get_char(i - 1) == '/' {
            proof {
                lemma_last_slash_unique(s@, i - 1);
            }
            return Some(i - 1);
        }
        i = i - 1;
    }
    proof {
        lemma_last_slash_unique(s@, -1);
    }
    None
}

/// The parent of a relative path: what comes before its last `/`, or the
/// root (the empty path) when it has none.
pub fn parent_relative_path(path: &RelativePath) -> (parent: RelativePath)
    ensures
        parent.0@ == spec_rsplit_slash(path.0@).0,
{
    let s = path.0.as_str();
    match find_last_slash(s) {
        Some(p) => {
            proof {
                lemma_last_slash(s@);
            }
            RelativePath(substring(s, 0, p))
        },
        None => RelativePath(String::new()),
    }
}

/// The parent part and the name part of a target path.
pub fn split_target_path(target: &RelativePath) -> (parts: (&str, &str))
    ensures
        parts.0@ == spec_rsplit_slash(target.0@).0,
        parts.1@ == spec_rsplit_slash(target.0@).1,
{
    let s = target.0.as_str();
    let n = s.unicode_len();
    match find_last_slash(s) {
        Some(p) => {
            proof {
                lemma_last_slash(s@);
            }
            (s.substring_char(0, p), s.substring_char(p + 1, n))
        },
        None => {
            proof {
                reveal_strlit("");
            }
            assert(""@ =~= Seq::<char>::empty());
            assert(s@.subrange(0, n as int) =~= s@);
            ("", s.substring_char(0, n))
        },
    }
}

/// A name placed under a parent: the name alone under the root, otherwise
/// parent, `/`, name.
pub open spec fn spec_join_relative(parent: Seq<char>, name: Seq<char>) -> Seq<char> {
    if parent.len() == 0 {
        name
    } else {
        parent + seq!['/'] + name
    }
}

pub fn join_relative_name(parent: &RelativePath, name: &SafeFileName) -> (joined: RelativePath)
    ensures
        joined.0@ == spec_join_relative(parent.0@, name.0@),
{
    if parent.0.as_str().unicode_len() == 0 {
        RelativePath(name.0.clone())
    } else {
        let with_slash = concat(parent.0.as_str(), "/");
        proof {
            reveal_strlit("/");
            assert("/"@ =~= seq!['/']);
        }
        RelativePath(concat(with_slash.as_str(), name.0.as_str()))
    }
}

/// Joining a name to a parent and splitting the result gives the parent and
/// the name back.
pub proof fn lemma_join_then_split(parent: Seq<char>, name: Seq<char>)
    requires
        !name.contains('/'),
    ensures
        spec_rsplit_slash(spec_join_relative(parent, name)) == (parent, name),
{
    let j = spec_join_relative(parent, name);
    if parent.len() == 0 {
        assert forall|k: int| -1 < k < j.len() implies j[k] != '/' by {
            if j[k] == '/' {
                assert(name.contains('/'));
            }
        }
        lemma_last_slash_unique(j, -1);
    } else {
        let p = parent.len() as int;
        assert(j[p] == '/');
        assert forall|k: int| p < k < j.len() implies j[k] != '/' by {
            assert(j[k] == name[k - p - 1]);
            if j[k] == '/' {
                assert(name.contains('/'));
            }
        }
        lemma_last_slash_unique(j, p);
        assert(j.subrange(0, p) =~= parent);
        assert(j.subrange(p + 1, j.len() as int) =~= name);
    }
}

/// A relative path is hidden when its first entry name starts with `.`;
/// a path that fails validation is not.
pub open spec fn spec_is_hidden_relative(s: Seq<char>) -> bool {
    match spec_validate_relative_path(s) {
        Ok(n) => n.len() > 0 && n[0] == '.',
        Err(_) => false,
    }
}

pub fn is_hidden_relative(path: &RelativePath) -> (hidden: bool)
    ensures
        hidden == spec_is_hidden_relative(path.0@),
{
    match validate_relative_path(path) {
        Ok(validated) => {
            let s = validated.0.as_str();
            s.unicode_len() > 0 && s.get_char(0) == '.'
        },
        Err(_) => false,
    }
}

/// The position of the first `/` among the first `k` characters of `s`, or
/// `k` when there is none.
pub open spec fn first_slash_before(s: Seq<char>, k: int) -> int
    decreases k,
{
    if k <= 0 {
        0
    } else {
        let f = first_slash_before(s, k - 1);
        if f < k - 1 {
            f
        } else if s[k - 1] == '/' {
            k - 1
        } else {
            k
        }
    }
}

/// The first piece of a prefix is the run of characters before the first slash.
proof fn lemma_first_piece_prefix(s: Seq<char>, k: int)
    requires
        0 <= k <= s.len(),
    ensures
        split_slash(s.subrange(0, k)).len() >= 1,
        0 <= first_slash_before(s, k) <= k,
        (split_slash(s.subrange(0, k)).len() == 1) == (first_slash_before(s, k) == k),
        split_slash(s.subrange(0, k))[0] == s.subrange(0, first_slash_before(s, k)),
        first_slash_before(s, k) < k ==> s[first_slash_before(s, k)] == '/',
        forall|m: int| 0 <= m < first_slash_before(s, k) ==> s[m] != '/',
    decreases k,
{
    let t = s.subrange(0, k);
    lemma_split_slash_nonempty(t);
    if k == 0 {
        assert(t =~= Seq::<char>::empty());
        assert(split_slash(t)[0] =~= Seq::<char>::empty());
        assert(s.subrange(0, 0) =~= Seq::<char>::empty());
    } else {
        lemma_first_piece_prefix(s, k - 1);
        let t0 = s.subrange(0, k - 1);
        assert(t.drop_last() =~= t0);
        assert(t.last() == s[k - 1]);
        let rest = split_slash(t0);
        let f = first_slash_before(s, k - 1);
        if f < k - 1 {
            assert(rest.len() > 1);
            assert(split_slash(t)[0] == rest[0]);
        } else if s[k - 1] == '/' {
            assert(split_slash(t)[0] == rest[0]);
            assert(split_slash(t).len() == 2);
        } else {
            assert(rest.len() == 1);
            assert(split_slash(t)[0] == rest[0].push(s[k - 1]));
            assert(rest[0].push(s[k - 1]) =~= s.subrange(0, k));
        }
    }
}

/// The first piece of `s` is `.` exactly when `s` opens with `.` followed by
/// a `/` or by nothing.
pub proof fn lemma_first_piece(s: Seq<char>)
    ensures
        split_slash(s).len() >= 1,
        (split_slash(s)[0] == dot()) <==> (s.len() > 0 && s[0] == '.' && (s.len() == 1 || s[1]
            == '/')),
{
    lemma_first_piece_prefix(s, s.len() as int);
    assert(s.subrange(0, s.len() as int) =~= s);
    let f = first_slash_before(s, s.len() as int);
    let p = s.subrange(0, f);
    if s.len() > 0 && s[0] == '.' && (s.len() == 1 || s[1] == '/') {
        if s.len() == 1 {
            assert(f == 1);
        } else {
            assert(f == 1) by {
                if f > 1 {
                    assert(s[1] != '/');
                }
            }
        }
        assert(p =~= dot());
    }
    if p == dot() {
        assert(p.len() == f);
        assert(f == 1);
        assert(p[0] == s[0]);
        assert(s[0] == '.');
    }
}

/// A root and a path in it, as a request names them.
#[derive(Debug, Clone, PartialEq, Eq)]
pub struct PathRequest {
    pub root_id: RootId,
    pub relative_path: RelativePath,
}

/// Why a path was refused.
#[derive(Debug, Clone, Copy, PartialEq, Eq, Structural)]
pub enum PathValidationError {
    InvalidRootId,
    AbsolutePathRejected,
    TraversalRejected,
    NullByteRejected,
    InvalidFilename,
    ReservedNameRejected,
    PathEscapesRoot,
    SymlinkDenied,
    SymlinkEscape,
}

/// A configured root with the canonical form of its base path.
#[derive(Debug, Clone, PartialEq, Eq)]
pub struct ResolvedRoot {
    pub root_id: RootId,
    pub canonical_base: String,
    pub root: AllowedRoot,
}

/// An existing entry under a root: its validated relative path and its
/// canonical absolute path.
#[derive(Debug, Clone, PartialEq, Eq)]
pub struct ExistingPathResolution {
    pub root: ResolvedRoot,
    pub relative_path: RelativePath,
    pub resolved_path: String,
    pub is_symlink: bool,
}

/// A name that may be created under an existing directory of a root.
#[derive(Debug, Clone, PartialEq, Eq)]
pub struct NewTargetResolution {
    pub root: ResolvedRoot,
    pub parent_relative_path: RelativePath,
    pub filename: SafeFileName,
    pub resolved_parent: String,
    pub resolved_path: String,
}

/// A root together with its canonical base, or `InvalidRootId` when the
/// filesystem could not resolve the base (`canonical_base` is `None`).
pub fn resolve_root(root: &AllowedRoot, canonical_base: Option<String>) -> (res: Result<ResolvedRoot, TealDriveError>)
    ensures
        match canonical_base {
            None => res == Err::<ResolvedRoot, TealDriveError>(TealDriveError::InvalidRootId),
            Some(b) => res matches Ok(r) && r.root_id == root.root_id && r.canonical_base == b
                && r.root == *root,
        },
{
    match canonical_base {
        None => Err(TealDriveError::InvalidRootId),
        Some(b) => Ok(ResolvedRoot {
            root_id: clone_root_id(&root.root_id),
            canonical_base: b,
            root: clone_allowed_root(root),
        }),
    }
}

/// Where a validated relative path lies under a base: the base itself for
/// the empty path.
pub open spec fn spec_candidate(base: Seq<char>, rel: Seq<char>) -> Seq<char> {
    if rel.len() == 0 {
        base
    } else {
        spec_path_join(base, rel)
    }
}

pub fn candidate_path(base: &str, rel: &str) -> (c: String)
    ensures
        c@ == spec_candidate(base@, rel@),
{
    if rel.unicode_len() == 0 {
        base.to_owned()
    } else {
        path_join(base, rel)
    }
}

/// The first step in resolving an existing path: the validated relative
/// path and where it lies under the root.
pub fn existing_path_candidate(root: &ResolvedRoot, relative_path: &RelativePath) -> (res: Result<
    (RelativePath, String),
    TealDriveError,
>)
    ensures
        match (res, spec_validate_relative_path(relative_path.0@)) {
            (Ok((v, c)), Ok(s)) => v.0@ == s && c@ == spec_candidate(root.canonical_base@, s),
            (Err(e), Err(s)) => e == s,
            _ => false,
        },
{
    let validated = validate_relative_path(relative_path)?;
    let c = candidate_path(root.canonical_base.as_str(), validated.0.as_str());
    Ok((validated, c))
}

/// The error for a path the filesystem could not describe or resolve:
/// `NotFound` when nothing is there, else `InvalidPath`.
pub open spec fn spec_unresolved(f: IoFailure) -> TealDriveError {
    if f.kind == IoErrorKind::NotFound {
        TealDriveError::NotFound
    } else {
        TealDriveError::InvalidPath
    }
}

fn unresolved(f: IoFailure) -> (e: TealDriveError)
    ensures
        e == spec_unresolved(f),
{
    match f.kind {
        IoErrorKind::NotFound => TealDriveError::NotFound,
        _ => TealDriveError::InvalidPath,
    }
}

/// The check on the candidate's own metadata, given whether it is a
/// symlink, or why it could not be described: a missing path is
/// `NotFound`, another failure `InvalidPath`; a symlink is refused unless
/// symlinks are followed. Gives whether the candidate is a symlink.
pub fn check_candidate_link(is_symlink: Result<bool, IoFailure>, follow_symlinks: bool) -> (res: Result<
    bool,
    TealDriveError,
>)
    ensures
        match is_symlink {
            Err(f) => res == Err::<bool, TealDriveError>(spec_unresolved(f)),
            Ok(l) => if l && !follow_symlinks {
                res == Err::<bool, TealDriveError>(TealDriveError::SymlinkDenied)
            } else {
                res == Ok::<bool, TealDriveError>(l)
            },
        },
{
    match is_symlink {
        Err(f) => Err(unresolved(f)),
        Ok(l) => {
            if l && !follow_symlinks {
                Err(TealDriveError::SymlinkDenied)
            } else {
                Ok(l)
            }
        },
    }
}

/// The last step in resolving an existing path, given the candidate's
/// canonical form (`None` when it could not be resolved: `InvalidPath`). A
/// canonical path outside the root's base is refused, as a symlink escape
/// when the candidate is a symlink.
pub fn finish_existing_resolution(
    root: ResolvedRoot,
    relative_path: RelativePath,
    canonical: Option<String>,
    is_symlink: bool,
) -> (res: Result<ExistingPathResolution, TealDriveError>)
    ensures
        match canonical {
            None => res == Err::<ExistingPathResolution, TealDriveError>(TealDriveError::InvalidPath),
            Some(c) => if !spec_path_starts_with(c@, root.canonical_base@) {
                res == Err::<ExistingPathResolution, TealDriveError>(
                    if is_symlink {
                        TealDriveError::SymlinkEscape
                    } else {
                        TealDriveError::PathEscapesRoot
                    },
                )
            } else {
                res == Ok::<ExistingPathResolution, TealDriveError>(
                    ExistingPathResolution { root, relative_path, resolved_path: c, is_symlink },
                )
            },
        },
{
    match canonical {
        None => Err(TealDriveError::InvalidPath),
        Some(c) => {
            if !path_starts_with(c.as_str(), root.canonical_base.as_str()) {
                Err(
                    if is_symlink {
                        TealDriveError::SymlinkEscape
                    } else {
                        TealDriveError::PathEscapesRoot
                    },
                )
            } else {
                Ok(ExistingPathResolution { root, relative_path, resolved_path: c, is_symlink })
            }
        },
    }
}

/// The first step in resolving a new target: the validated parent, the
/// checked name and where the parent lies under the root.
pub fn new_target_candidate(root: &ResolvedRoot, parent_relative_path: &RelativePath, filename: &str) -> (res:
    Result<(RelativePath, SafeFileName, String), TealDriveError>)
    ensures
        match spec_validate_relative_path(parent_relative_path.0@) {
            Err(e) => res == Err::<(RelativePath, SafeFileName, String), TealDriveError>(e),
            Ok(p) => if !valid_filename(filename@) {
                res == Err::<(RelativePath, SafeFileName, String), TealDriveError>(
                    spec_filename_error(filename@),
                )
            } else {
                res matches Ok((v, n, c)) && v.0@ == p && n.0@ == filename@ && c@ == spec_candidate(
                    root.canonical_base@,
                    p,
                )
            },
        },
{
    let parent = validate_relative_path(parent_relative_path)?;
    let name = SafeFileName::parse(filename)?;
    let c = candidate_path(root.canonical_base.as_str(), parent.0.as_str());
    Ok((parent, name, c))
}

/// The last step in resolving a new target, given the parent's canonical
/// form or why it could not be resolved (a missing parent is `NotFound`,
/// another failure `InvalidPath`): the parent and the new path must both
/// lie in the root's base.
pub fn finish_new_target(
    root: ResolvedRoot,
    parent_relative_path: RelativePath,
    filename: SafeFileName,
    canonical_parent: Result<String, IoFailure>,
) -> (res: Result<NewTargetResolution, TealDriveError>)
    ensures
        match canonical_parent {
            Err(f) => res == Err::<NewTargetResolution, TealDriveError>(spec_unresolved(f)),
            Ok(p) => if !spec_path_starts_with(p@, root.canonical_base@)
                || !spec_path_starts_with(spec_path_join(p@, filename.0@), root.canonical_base@) {
                res == Err::<NewTargetResolution, TealDriveError>(TealDriveError::PathEscapesRoot)
            } else {
                res matches Ok(t) && t.root == root && t.parent_relative_path == parent_relative_path
                    && t.filename == filename && t.resolved_parent == p
                    && t.resolved_path@ == spec_path_join(p@, filename.0@)
            },
        },
{
    match canonical_parent {
        Err(f) => Err(unresolved(f)),
        Ok(p) => {
            if !path_starts_with(p.as_str(), root.canonical_base.as_str()) {
                return Err(TealDriveError::PathEscapesRoot);
            }
            let path = path_join(p.as_str(), filename.0.as_str());
            if !path_starts_with(path.as_str(), root.canonical_base.as_str()) {
                return Err(TealDriveError::PathEscapesRoot);
            }
            Ok(NewTargetResolution {
                root,
                parent_relative_path,
                filename,
                resolved_parent: p,
                resolved_path: path,
            })
        },
    }
}

} // verus!
