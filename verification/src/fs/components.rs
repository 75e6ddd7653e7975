//! Absolute filesystem paths held as strings, compared component by
//! component as `std::path::Path` compares them.

use vstd::prelude::*;

use crate::config::string_views;
use crate::fs::filename::{dot, dot_dot};
use crate::fs::path::split_slash;
use crate::strings::{chars_of, concat};
use vstd::string::StrSliceExecFns;

verus! {

/// A piece that stands for a component: not empty, not `.`.
pub open spec fn is_component_piece(piece: Seq<char>) -> bool {
    piece.len() > 0 && piece != dot()
}

/// The pieces of `pieces` that stand for components, in order.
pub open spec fn component_pieces(pieces: Seq<Seq<char>>) -> Seq<Seq<char>>
    decreases pieces.len(),
{
    if pieces.len() == 0 {
        Seq::empty()
    } else {
        let rest = component_pieces(pieces.drop_last());
        if is_component_piece(pieces.last()) {
            rest.push(pieces.last())
        } else {
            rest
        }
    }
}

/// The components of a path: a root marker `/` for an absolute path, a
/// leading `.` for a relative path that starts with one, then the names and
/// `..` pieces; repeated slashes and inner `.` pieces do not count.
pub open spec fn path_components(s: Seq<char>) -> Seq<Seq<char>> {
    let head = if s.len() > 0 && s[0] == '/' {
        seq![seq!['/']]
    } else if split_slash(s)[0] == dot() {
        seq![dot()]
    } else {
        Seq::empty()
    };
    head + component_pieces(split_slash(s))
}

/// Whether the components of `base` open the components of `path`.
pub open spec fn spec_path_starts_with(path: Seq<char>, base: Seq<char>) -> bool {
    let p = path_components(path);
    let b = path_components(base);
    b.len() <= p.len() && p.subrange(0, b.len() as int) == b
}

/// The components of `s`, computed.
fn components_of(s: &str) -> (comps: Vec<String>)
    ensures
        string_views(comps@) == path_components(s@),
{
    let chars = chars_of(s);
    let n = chars.len();
    let ghost t = s@;
    let mut out: Vec<String> = Vec::new();
    let ghost mut done: Seq<Seq<char>> = Seq::empty();
    let mut start: usize = 0;
    let mut i: usize = 0;
    proof {
        crate::fs::path::lemma_split_slash_nonempty(t);
    }
    let absolute = n > 0 && chars[0] == '/';
    // The first piece is `.` exactly when the string opens with `.` then `/` or ends.
    let leading_dot = n > 0 && chars[0] == '.' && (n == 1 || chars[1] == '/');
    proof {
        crate::fs::path::lemma_first_piece(t);
    }
    if absolute {
        let root = concat("", "/");
        proof {
            reveal_strlit("");
            reveal_strlit("/");
            assert(""@ + "/"@ =~= seq!['/']);
        }
        out.push(root);
    } else if leading_dot {
        let cur = concat("", ".");
        proof {
            reveal_strlit("");
            reveal_strlit(".");
            assert(""@ + "."@ =~= dot());
        }
        out.push(cur);
    }
    let ghost head = string_views(out@);
    proof {
        let s0 = split_slash(t)[0];
        if !absolute && !leading_dot {
            assert(head =~= Seq::<Seq<char>>::empty());
        }
        if absolute {
            assert(head =~= seq![seq!['/']]);
        }
        if !absolute && leading_dot {
            assert(head =~= seq![dot()]);
        }
        assert(path_components(t) == head + component_pieces(split_slash(t)));
    }
    assert(t.subrange(0, 0) =~= Seq::<char>::empty());
    assert(split_slash(t.subrange(0, 0)) =~= done + seq![t.subrange(0, 0)]);
    assert(string_views(out@) =~= head + component_pieces(done));
    while i < n
        invariant
            t == s@,
            chars@ == t,
            n == t.len(),
            start <= i <= n,
            split_slash(t.subrange(0, i as int)) == done + seq![t.subrange(start as int, i as int)],
            string_views(out@) == head + component_pieces(done),
        decreases n - i,
    {
        proof {
            crate::fs::path::lemma_split_step(t, i as int, done, start as int);
        }
        if chars[i] == '/' {
            let ghost p = t.subrange(start as int, i as int);
            let is_dot = i - start == 1 && chars[start] == '.';
            proof {
                if i - start == 1 {
                    assert(p[0] == t[start as int]);
                    assert(is_dot == (p =~= dot()));
                } else {
                    assert(p.len() != 1);
                }
                assert(done.push(p).drop_last() =~= done);
            }
            let ghost before = string_views(out@);
            proof {
                assert(is_component_piece(p) == (i > start && !is_dot));
                assert(component_pieces(done.push(p)) == if is_component_piece(p) {
                    component_pieces(done).push(p)
                } else {
                    component_pieces(done)
                });
            }
            if i > start && !is_dot {
                let piece = s.substring_char(start, i).to_owned();
                out.push(piece);
                assert(string_views(out@) =~= before.push(p));
            }
            proof {
                assert(done + seq![p] =~= done.push(p));
                done = done.push(p);
                assert(string_views(out@) =~= head + component_pieces(done));
            }
            start = i + 1;
        }
        i = i + 1;
    }
    let ghost p = t.subrange(start as int, n as int);
    let is_dot = n - start == 1 && chars[start] == '.';
    proof {
        assert(t.subrange(0, n as int) =~= t);
        if n - start == 1 {
            assert(p[0] == t[start as int]);
            assert(is_dot == (p =~= dot()));
        } else {
            assert(p.len() != 1);
        }
        assert(done.push(p).drop_last() =~= done);
        assert(split_slash(t) =~= done.push(p));
    }
    let ghost before = string_views(out@);
    proof {
        assert(is_component_piece(p) == (n > start && !is_dot));
        assert(component_pieces(done.push(p)) == if is_component_piece(p) {
            component_pieces(done).push(p)
        } else {
            component_pieces(done)
        });
    }
    if n > start && !is_dot {
        let piece = s.substring_char(start, n).to_owned();
        out.push(piece);
        assert(string_views(out@) =~= before.push(p));
    }
    assert(string_views(out@) =~= head + component_pieces(done.push(p)));
    out
}

/// Whether `path` lies at or under `base`, component by component.
pub fn path_starts_with(path: &str, base: &str) -> (inside: bool)
    ensures
        inside == spec_path_starts_with(path@, base@),
{
    let p = components_of(path);
    let b = components_of(base);
    let ghost pv = string_views(p@);
    let ghost bv = string_views(b@);
    assert(pv.len() == p@.len());
    assert(bv.len() == b@.len());
    if b.len() > p.len() {
        return false;
    }
    let mut i: usize = 0;
    while i < b.len()
        invariant
            pv == string_views(p@),
            bv == string_views(b@),
            pv == path_components(path@),
            bv == path_components(base@),
            b@.len() <= p@.len(),
            i <= b@.len(),
            forall|k: int| 0 <= k < i ==> pv[k] == bv[k],
        decreases b@.len() - i,
    {
        assert(pv[i as int] == p@[i as int]@);
        assert(bv[i as int] == b@[i as int]@);
        if !crate::strings::str_eq(p[i].as_str(), b[i].as_str()) {
            assert(pv[i as int] != bv[i as int]);
            assert(pv.subrange(0, bv.len() as int)[i as int] != bv[i as int]);
            return false;
        }
        i = i + 1;
    }
    assert(pv.subrange(0, bv.len() as int) =~= bv);
    true
}

/// `rel` placed under `base`, as `PathBuf::join` places a relative path:
/// one `/` between them unless `base` is empty or already ends with one.
pub open spec fn spec_path_join(base: Seq<char>, rel: Seq<char>) -> Seq<char> {
    if rel.len() > 0 && rel[0] == '/' {
        rel
    } else if base.len() == 0 || base.last() == '/' {
        base + rel
    } else {
        base + seq!['/'] + rel
    }
}

pub fn path_join(base: &str, rel: &str) -> (joined: String)
    ensures
        joined@ == spec_path_join(base@, rel@),
{
    let nb = base.unicode_len();
    if rel.unicode_len() > 0 && rel.get_char(0) == '/' {
        rel.to_owned()
    } else if nb == 0 || base.get_char(nb - 1) == '/' {
        concat(base, rel)
    } else {
        let with_slash = concat(base, "/");
        proof {
            reveal_strlit("/");
            assert("/"@ =~= seq!['/']);
        }
        concat(with_slash.as_str(), rel)
    }
}

/// The last component of a path when it is a name, as `Path::file_name`
/// gives it: none for a path that ends in `..`, is a root or is empty.
pub open spec fn spec_file_name(s: Seq<char>) -> Option<Seq<char>> {
    let comps = path_components(s);
    if comps.len() == 0 {
        None
    } else {
        let last = comps.last();
        if last == seq!['/'] || last == dot() || last == dot_dot() {
            None
        } else {
            Some(last)
        }
    }
}

pub fn file_name(path: &str) -> (name: Option<String>)
    ensures
        match name {
            Some(n) => spec_file_name(path@) == Some(n@),
            None => spec_file_name(path@) is None,
        },
{
    let comps = components_of(path);
    let ghost cv = string_views(comps@);
    let k = comps.len();
    if k == 0 {
        return None;
    }
    let last = comps[k - 1].as_str();
    let lc = chars_of(last);
    let is_root = lc.len() == 1 && lc[0] == '/';
    let is_dot = lc.len() == 1 && lc[0] == '.';
    let is_dot_dot = lc.len() == 2 && lc[0] == '.' && lc[1] == '.';
    proof {
        assert(cv.last() == last@);
        if lc.len() == 1 {
            assert(is_root == (last@ =~= seq!['/']));
            assert(is_dot == (last@ =~= dot()));
        } else {
            assert(last@.len() != 1);
        }
        if lc.len() == 2 {
            assert(is_dot_dot == (last@ =~= dot_dot()));
        } else {
            assert(last@.len() != 2);
        }
    }
    if is_root || is_dot || is_dot_dot {
        None
    } else {
        Some(last.to_owned())
    }
}

} // verus!
