//! Unix path text, read the way `std::path::Path` reads it: as a sequence of
//! components (root, `.`, `..` and normal names).
use crate::text::{concat2, concat3};
use vstd::prelude::*;
use vstd::string::*;

verus! {

/// `s.split('/')`: the pieces between slashes (always at least one piece).
pub open spec fn split_slash(s: Seq<char>) -> Seq<Seq<char>>
    decreases s.len(),
{
    if s.len() == 0 {
        seq![Seq::empty()]
    } else {
        let p = split_slash(s.drop_last());
        if s.last() == '/' {
            p.push(Seq::empty())
        } else {
            p.update(p.len() - 1, p.last().push(s.last()))
        }
    }
}

/// A piece that yields a component: neither empty nor `.`.
pub open spec fn kept_piece(p: Seq<char>) -> bool {
    p.len() > 0 && p != seq!['.']
}

/// The pieces that yield components, in order.
pub open spec fn kept_pieces(ps: Seq<Seq<char>>) -> Seq<Seq<char>>
    decreases ps.len(),
{
    if ps.len() == 0 {
        Seq::empty()
    } else if kept_piece(ps.last()) {
        kept_pieces(ps.drop_last()).push(ps.last())
    } else {
        kept_pieces(ps.drop_last())
    }
}

/// The path starts at the root directory.
pub open spec fn is_absolute(s: Seq<char>) -> bool {
    s.len() > 0 && s[0] == '/'
}

/// A relative path that begins with `.` as its own component.
pub open spec fn leading_cur_dir(s: Seq<char>) -> bool {
    !is_absolute(s) && s.len() > 0 && s[0] == '.' && (s.len() == 1 || s[1] == '/')
}

/// The component written `/` (root), `.` (current dir), `..` (parent) or a name.
pub open spec fn components(s: Seq<char>) -> Seq<Seq<char>> {
    let root: Seq<Seq<char>> = if is_absolute(s) { seq![seq!['/']] } else { Seq::empty() };
    let cur: Seq<Seq<char>> = if leading_cur_dir(s) { seq![seq!['.']] } else { Seq::empty() };
    root + cur + kept_pieces(split_slash(s))
}

pub open spec fn is_parent_component(c: Seq<char>) -> bool {
    c == seq!['.', '.']
}

/// A component that names a file or directory (not root, `.` or `..`).
pub open spec fn is_normal_component(c: Seq<char>) -> bool {
    c != seq!['/'] && c != seq!['.'] && c != seq!['.', '.']
}

/// Some component of the path is `..`.
pub open spec fn has_parent_dir(s: Seq<char>) -> bool {
    exists|i: int| 0 <= i < components(s).len() && is_parent_component(#[trigger] components(s)[i])
}

/// `child.starts_with(base)` for paths: the components of `base` begin those of `child`.
pub open spec fn path_starts_with(child: Seq<char>, base: Seq<char>) -> bool {
    let c = components(child);
    let b = components(base);
    b.len() <= c.len() && c.subrange(0, b.len() as int) == b
}

/// `left == right` for paths: the same components.
pub open spec fn path_eq(left: Seq<char>, right: Seq<char>) -> bool {
    components(left) == components(right)
}

/// The path is one normal component (a bare command name such as `sh`).
pub open spec fn is_single_name(s: Seq<char>) -> bool {
    components(s).len() == 1 && is_normal_component(components(s)[0])
}

pub proof fn lemma_split_nonempty(s: Seq<char>)
    ensures
        split_slash(s).len() >= 1,
    decreases s.len(),
{
    if s.len() > 0 {
        lemma_split_nonempty(s.drop_last());
    }
}

proof fn lemma_kept_pieces_step(ps: Seq<Seq<char>>)
    requires
        ps.len() > 0,
    ensures
        kept_pieces(ps) == kept_pieces(ps.drop_last()) + (if kept_piece(ps.last()) {
            seq![ps.last()]
        } else {
            Seq::<Seq<char>>::empty()
        }),
{
    if kept_piece(ps.last()) {
        assert(kept_pieces(ps.drop_last()).push(ps.last()) =~= kept_pieces(ps.drop_last()) + seq![
            ps.last(),
        ]);
    } else {
        assert(kept_pieces(ps.drop_last()) =~= kept_pieces(ps.drop_last()) + Seq::<
            Seq<char>,
        >::empty());
    }
}

fn is_kept_piece(p: &String) -> (r: bool)
    ensures
        r == kept_piece(p@),
{
    let n = p.as_str().unicode_len();
    if n == 0 {
        return false;
    }
    if n == 1 && p.as_str().get_char(0) == '.' {
        assert(p@ =~= seq!['.']);
        return false;
    }
    if n == 1 {
        assert(p@[0] != '.');
        assert(p@ != seq!['.']);
    }
    true
}

/// The components of a path, each as text (see `components`).
pub fn path_components(s: &str) -> (out: Vec<String>)
    ensures
        out@.map_values(|x: String| x@) == components(s@),
{
    let n = s.unicode_len();
    let mut parts: Vec<String> = Vec::new();
    let mut st: usize = 0;
    let mut i: usize = 0;
    proof {
        assert(s@.subrange(0, 0) =~= Seq::<char>::empty());
        assert(split_slash(Seq::<char>::empty()).drop_last() =~= Seq::<Seq<char>>::empty());
    }
    while i < n
        invariant
            n == s@.len(),
            st <= i <= n,
            split_slash(s@.subrange(0, i as int)).len() >= 1,
            parts@.map_values(|x: String| x@) == kept_pieces(
                split_slash(s@.subrange(0, i as int)).drop_last(),
            ),
            split_slash(s@.subrange(0, i as int)).last() == s@.subrange(st as int, i as int),
        decreases n - i,
    {
        let c = s.get_char(i);
        let ghost pre = s@.subrange(0, i as int);
        let ghost post = s@.subrange(0, i + 1);
        proof {
            assert(post.drop_last() =~= pre);
            assert(post.last() == c);
            lemma_split_nonempty(pre);
        }
        if c == '/' {
            let piece = s.substring_char(st, i).to_string();
            let keep = is_kept_piece(&piece);
            proof {
                assert(split_slash(post) == split_slash(pre).push(Seq::empty()));
                assert(split_slash(post).drop_last() =~= split_slash(pre));
                lemma_kept_pieces_step(split_slash(pre));
            }
            if keep {
                parts.push(piece);
            }
            st = i + 1;
            proof {
                assert(parts@.map_values(|x: String| x@) =~= kept_pieces(
                    split_slash(post).drop_last(),
                ));
                assert(s@.subrange(st as int, i + 1) =~= Seq::<char>::empty());
            }
        } else {
            proof {
                let p = split_slash(pre);
                assert(split_slash(post) == p.update(p.len() - 1, p.last().push(c)));
                assert(split_slash(post).drop_last() =~= p.drop_last());
                assert(s@.subrange(st as int, i + 1) =~= s@.subrange(st as int, i as int).push(c));
            }
        }
        i += 1;
    }
    let last = s.substring_char(st, n).to_string();
    let keep_last = is_kept_piece(&last);
    proof {
        assert(s@.subrange(0, n as int) =~= s@);
        lemma_kept_pieces_step(split_slash(s@));
    }
    if keep_last {
        parts.push(last);
    }
    let ghost body = kept_pieces(split_slash(s@));
    assert(parts@.map_values(|x: String| x@) =~= body);
    let mut out: Vec<String> = Vec::new();
    let absolute = n > 0 && s.get_char(0) == '/';
    proof {
        reveal_strlit("/");
        reveal_strlit(".");
    }
    if absolute {
        out.push(String::from_str("/"));
    }
    let cur = !absolute && n > 0 && s.get_char(0) == '.' && (n == 1 || s.get_char(1) == '/');
    if cur {
        out.push(String::from_str("."));
    }
    let ghost root: Seq<Seq<char>> = if is_absolute(s@) { seq![seq!['/']] } else { Seq::empty() };
    let ghost curs: Seq<Seq<char>> = if leading_cur_dir(s@) { seq![seq!['.']] } else { Seq::empty() };
    let ghost head = root + curs;
    proof {
        assert(absolute == is_absolute(s@));
        assert(cur == leading_cur_dir(s@));
        if absolute {
            assert(out@.len() == 1);
            assert(out@[0]@ == seq!['/']);
        } else if cur {
            assert(out@.len() == 1);
            assert(out@[0]@ == seq!['.']);
        } else {
            assert(out@.len() == 0);
        }
        assert(out@.map_values(|x: String| x@) =~= head);
    }
    let mut k: usize = 0;
    let ghost start_len = out@.len();
    while k < parts.len()
        invariant
            k <= parts@.len(),
            start_len == head.len(),
            out@.len() == start_len + k,
            out@.map_values(|x: String| x@) == head + body.subrange(0, k as int),
            parts@.map_values(|x: String| x@) == body,
        decreases parts.len() - k,
    {
        let ghost before = out@;
        let item = parts[k].clone();
        out.push(item);
        proof {
            assert(body[k as int] == parts@[k as int]@);
            assert(out@ == before.push(item));
            assert(out@.map_values(|x: String| x@) =~= before.map_values(|x: String| x@).push(item@));
            assert(body.subrange(0, k + 1) =~= body.subrange(0, k as int).push(body[k as int]));
        }
        k += 1;
        assert(out@.map_values(|x: String| x@) =~= head + body.subrange(0, k as int));
    }
    assert(body.subrange(0, k as int) =~= body);
    out
}

/// `path.is_absolute()`.
pub fn is_absolute_path(s: &str) -> (r: bool)
    ensures
        r == is_absolute(s@),
{
    s.unicode_len() > 0 && s.get_char(0) == '/'
}

fn is_parent_text(c: &String) -> (r: bool)
    ensures
        r == is_parent_component(c@),
{
    let n = c.as_str().unicode_len();
    if n == 2 && c.as_str().get_char(0) == '.' && c.as_str().get_char(1) == '.' {
        assert(c@ =~= seq!['.', '.']);
        true
    } else {
        if n == 2 {
            assert(c@[0] != '.' || c@[1] != '.');
        }
        false
    }
}

fn is_normal_text(c: &String) -> (r: bool)
    ensures
        r == is_normal_component(c@),
{
    let n = c.as_str().unicode_len();
    if n == 1 && c.as_str().get_char(0) == '/' {
        assert(c@ =~= seq!['/']);
        return false;
    }
    if n == 1 && c.as_str().get_char(0) == '.' {
        assert(c@ =~= seq!['.']);
        return false;
    }
    if is_parent_text(c) {
        return false;
    }
    if n == 1 {
        assert(c@[0] != '/' && c@[0] != '.');
    }
    true
}

/// Whether some component of the path is `..`.
pub fn path_has_parent_dir(s: &str) -> (r: bool)
    ensures
        r == has_parent_dir(s@),
{
    let comps = path_components(s);
    let ghost cv = comps@.map_values(|x: String| x@);
    let mut i: usize = 0;
    while i < comps.len()
        invariant
            cv == comps@.map_values(|x: String| x@),
            cv == components(s@),
            i <= comps@.len(),
            forall|k: int| 0 <= k < i ==> !is_parent_component(#[trigger] cv[k]),
        decreases comps.len() - i,
    {
        if is_parent_text(&comps[i]) {
            assert(is_parent_component(cv[i as int]));
            return true;
        }
        i += 1;
    }
    false
}

/// Whether the path is a single bare name.
pub fn path_is_single_name(s: &str) -> (r: bool)
    ensures
        r == is_single_name(s@),
{
    let comps = path_components(s);
    let ghost cv = comps@.map_values(|x: String| x@);
    if comps.len() != 1 {
        return false;
    }
    assert(cv[0] == comps@[0]@);
    is_normal_text(&comps[0])
}

/// Whether `base` is a component-wise prefix of `child` (`child.starts_with(base)`).
pub fn path_starts_with_str(child: &str, base: &str) -> (r: bool)
    ensures
        r == path_starts_with(child@, base@),
{
    let c = path_components(child);
    let b = path_components(base);
    let ghost cv = c@.map_values(|x: String| x@);
    let ghost bv = b@.map_values(|x: String| x@);
    if b.len() > c.len() {
        return false;
    }
    let mut i: usize = 0;
    while i < b.len()
        invariant
            cv == c@.map_values(|x: String| x@),
            bv == b@.map_values(|x: String| x@),
            cv == components(child@),
            bv == components(base@),
            b@.len() <= c@.len(),
            i <= b@.len(),
            forall|k: int| 0 <= k < i ==> #[trigger] cv[k] == bv[k],
        decreases b.len() - i,
    {
        if c[i] != b[i] {
            assert(cv.subrange(0, bv.len() as int)[i as int] != bv[i as int]);
            return false;
        }
        i += 1;
    }
    assert(cv.subrange(0, bv.len() as int) =~= bv);
    true
}

/// Whether two paths have the same components (`left == right` for paths).
pub fn path_eq_str(left: &str, right: &str) -> (r: bool)
    ensures
        r == path_eq(left@, right@),
{
    let a = path_components(left);
    let b = path_components(right);
    let ghost av = a@.map_values(|x: String| x@);
    let ghost bv = b@.map_values(|x: String| x@);
    if a.len() != b.len() {
        return false;
    }
    let mut i: usize = 0;
    while i < a.len()
        invariant
            av == a@.map_values(|x: String| x@),
            bv == b@.map_values(|x: String| x@),
            av == components(left@),
            bv == components(right@),
            a@.len() == b@.len(),
            i <= a@.len(),
            forall|k: int| 0 <= k < i ==> #[trigger] av[k] == bv[k],
        decreases a.len() - i,
    {
        if a[i] != b[i] {
            assert(av[i as int] != bv[i as int]);
            return false;
        }
        i += 1;
    }
    assert(av =~= bv);
    true
}

/// Prefixes of component sequences compose.
pub proof fn lemma_path_starts_with_transitive(a: Seq<char>, b: Seq<char>, c: Seq<char>)
    requires
        path_starts_with(a, b),
        path_starts_with(b, c),
    ensures
        path_starts_with(a, c),
{
    let ca = components(a);
    let cb = components(b);
    let cc = components(c);
    assert forall|i: int| 0 <= i < cc.len() implies ca.subrange(0, cc.len() as int)[i] == cc[i] by {
        assert(cb.subrange(0, cc.len() as int)[i] == cc[i]);
        assert(ca.subrange(0, cb.len() as int)[i] == cb[i]);
    }
    assert(ca.subrange(0, cc.len() as int) =~= cc);
}

/// Every path starts with itself.
pub proof fn lemma_path_starts_with_reflexive(a: Seq<char>)
    ensures
        path_starts_with(a, a),
{
    assert(components(a).subrange(0, components(a).len() as int) =~= components(a));
}


/// `base` joined with the relative path `name`, as `Path::join` does: a separator
/// goes between them unless `base` is empty or already ends with one.
pub open spec fn join_path(base: Seq<char>, name: Seq<char>) -> Seq<char> {
    if base.len() == 0 || base.last() == '/' {
        base + name
    } else {
        base + "/"@ + name
    }
}

/// Joins the relative path `name` onto `base`.
pub fn join_path_str(base: &str, name: &str) -> (r: String)
    ensures
        r@ == join_path(base@, name@),
{
    let n = base.unicode_len();
    proof {
        reveal_strlit("/");
    }
    if n == 0 || base.get_char(n - 1) == '/' {
        concat2(base, name)
    } else {
        concat3(base, "/", name)
    }
}

} // verus!
