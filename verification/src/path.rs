//! Unix paths as sequences of components, and the lexical join that resolves `.` and `..`
//! without looking at the file system.
use vstd::prelude::*;
use crate::text::{chars_of, find_char, lemma_find_char, lemma_find_char_at, lemma_find_char_none, push_char, str_eq, string_of};

verus! {

/// A component of a path: the root, a step up, or a name.
pub enum Comp {
    Root,
    Up,
    Name(Seq<char>),
}

/// The pieces of `s` between the occurrences of `c`, empty ones included.
pub open spec fn split_spec(s: Seq<char>, c: char) -> Seq<Seq<char>>
    decreases s.len(),
{
    match find_char(s, c) {
        Some(i) => {
            proof {
                lemma_find_char(s, c);
            }
            seq![s.take(i)] + split_spec(s.skip(i + 1), c)
        },
        None => seq![s],
    }
}

/// The components that the pieces of a path between its slashes stand for: empty pieces and
/// `.` stand for nothing, `..` for a step up.
pub open spec fn part_comps(ps: Seq<Seq<char>>) -> Seq<Comp>
    decreases ps.len(),
{
    if ps.len() == 0 {
        Seq::empty()
    } else {
        let p = ps[0];
        let rest = part_comps(ps.drop_first());
        if p.len() == 0 || p == "."@ {
            rest
        } else if p == ".."@ {
            seq![Comp::Up] + rest
        } else {
            seq![Comp::Name(p)] + rest
        }
    }
}

/// The components of a path: the root when it starts with a slash, then its named steps.
pub open spec fn comps_of(s: Seq<char>) -> Seq<Comp> {
    (if s.len() > 0 && s[0] == '/' {
        seq![Comp::Root]
    } else {
        Seq::empty()
    }) + part_comps(split_spec(s, '/'))
}

/// Components taken in turn: the root starts over, a step up drops the last name (never the
/// root), a name is added.
pub open spec fn fold_comps(acc: Seq<Comp>, cs: Seq<Comp>) -> Seq<Comp>
    decreases cs.len(),
{
    if cs.len() == 0 {
        acc
    } else {
        let next = match cs[0] {
            Comp::Root => seq![Comp::Root],
            Comp::Up => if acc.len() > 0 && !(acc.last() is Root) {
                acc.drop_last()
            } else {
                acc
            },
            Comp::Name(n) => acc.push(Comp::Name(n)),
        };
        fold_comps(next, cs.drop_first())
    }
}

/// The text of a name component.
pub open spec fn comp_text(c: Comp) -> Seq<char> {
    match c {
        Comp::Name(n) => n,
        Comp::Up => ".."@,
        Comp::Root => Seq::empty(),
    }
}

/// Names joined by slashes.
pub open spec fn join_names(cs: Seq<Comp>) -> Seq<char>
    decreases cs.len(),
{
    if cs.len() == 0 {
        Seq::empty()
    } else if cs.len() == 1 {
        comp_text(cs[0])
    } else {
        comp_text(cs[0]) + seq!['/'] + join_names(cs.drop_first())
    }
}

/// The text of a path made of components.
pub open spec fn render(cs: Seq<Comp>) -> Seq<char> {
    if cs.len() > 0 && cs[0] is Root {
        seq!['/'] + join_names(cs.drop_first())
    } else {
        join_names(cs)
    }
}

/// `rel` resolved against `base`, as text.
pub open spec fn path_join_spec(base: Seq<char>, rel: Seq<char>) -> Seq<char> {
    render(fold_comps(Seq::empty(), comps_of(base) + comps_of(rel)))
}

/// What stands in a resolved path after `/etc/zoneinfo`, if it starts there.
pub open spec fn zoneinfo_rest(cs: Seq<Comp>) -> Option<Seq<char>> {
    if cs.len() >= 3 && cs[0] is Root && cs[1] == Comp::Name("etc"@) && cs[2] == Comp::Name(
        "zoneinfo"@,
    ) {
        Some(join_names(cs.skip(3)))
    } else {
        None
    }
}

/// An executable path component.
pub enum PathComp {
    Root,
    Up,
    Name(String),
}

/// The view of a component.
pub open spec fn pc_view(c: PathComp) -> Comp {
    match c {
        PathComp::Root => Comp::Root,
        PathComp::Up => Comp::Up,
        PathComp::Name(n) => Comp::Name(n@),
    }
}

/// The views of components.
pub open spec fn pcs_view(v: Seq<PathComp>) -> Seq<Comp> {
    v.map_values(|c: PathComp| pc_view(c))
}

proof fn lemma_split_step(s: Seq<char>, c: char, i: int)
    requires
        0 <= i < s.len(),
        s[i] == c,
        forall|j: int| 0 <= j < i ==> s[j] != c,
    ensures
        split_spec(s, c) == seq![s.take(i)] + split_spec(s.skip(i + 1), c),
{
    lemma_find_char_at(s, c, i);
}

proof fn lemma_split_last(s: Seq<char>, c: char)
    requires
        forall|j: int| 0 <= j < s.len() ==> s[j] != c,
    ensures
        split_spec(s, c) == seq![s],
{
    lemma_find_char_none(s, c);
}

/// The components that one piece between slashes stands for.
fn piece_comps(v: &Vec<char>, from: usize, to: usize, out: &mut Vec<PathComp>)
    requires
        from <= to <= v.len(),
    ensures
        pcs_view(final(out)@) == pcs_view(old(out)@) + part_comps(seq![v@.subrange(from as int, to as int)]),
{
    let ghost p = v@.subrange(from as int, to as int);
    let piece = string_of(v, from, to);
    proof {
        assert(seq![p].drop_first() =~= Seq::<Seq<char>>::empty());
        assert(part_comps(Seq::<Seq<char>>::empty()) == Seq::<Comp>::empty());
    }
    let ghost before = pcs_view(out@);
    if to == from || str_eq(piece.as_str(), ".") {
        assert(before + Seq::<Comp>::empty() =~= before);
    } else if str_eq(piece.as_str(), "..") {
        out.push(PathComp::Up);
        assert(pcs_view(out@) =~= before + seq![Comp::Up]);
        assert(seq![Comp::Up] + Seq::<Comp>::empty() =~= seq![Comp::Up]);
    } else {
        out.push(PathComp::Name(piece));
        assert(pcs_view(out@) =~= before + seq![Comp::Name(p)]);
        assert(seq![Comp::Name(p)] + Seq::<Comp>::empty() =~= seq![Comp::Name(p)]);
    }
}

proof fn lemma_part_comps_append(a: Seq<Seq<char>>, b: Seq<Seq<char>>)
    ensures
        part_comps(a + b) == part_comps(a) + part_comps(b),
    decreases a.len(),
{
    if a.len() == 0 {
        assert(a + b =~= b);
        assert(Seq::<Comp>::empty() + part_comps(b) =~= part_comps(b));
    } else {
        assert((a + b).drop_first() =~= a.drop_first() + b);
        assert((a + b)[0] == a[0]);
        lemma_part_comps_append(a.drop_first(), b);
        let p = a[0];
        if p.len() == 0 || p == "."@ {
        } else if p == ".."@ {
            assert(seq![Comp::Up] + (part_comps(a.drop_first()) + part_comps(b)) =~= (seq![Comp::Up] + part_comps(a.drop_first())) + part_comps(b));
        } else {
            assert(seq![Comp::Name(p)] + (part_comps(a.drop_first()) + part_comps(b)) =~= (seq![Comp::Name(p)] + part_comps(a.drop_first())) + part_comps(b));
        }
    }
}

/// The components of the path `s`, appended to `out`.
pub fn components(s: &str, out: &mut Vec<PathComp>)
    ensures
        pcs_view(final(out)@) == pcs_view(old(out)@) + comps_of(s@),
{
    let v = chars_of(s);
    let n = v.len();
    let ghost base = pcs_view(out@);
    let ghost root: Seq<Comp> = if s@.len() > 0 && s@[0] == '/' {
        seq![Comp::Root]
    } else {
        Seq::empty()
    };
    if n > 0 && v[0] == '/' {
        out.push(PathComp::Root);
    }
    proof {
        assert(pcs_view(out@) =~= base + root);
        assert(s@.skip(0) =~= s@);
        assert(Seq::<Seq<char>>::empty() + split_spec(s@, '/') =~= split_spec(s@, '/'));
    }
    let mut start: usize = 0;
    let mut k: usize = 0;
    let ghost mut done: Seq<Seq<char>> = Seq::empty();
    while k < n
        invariant
            start <= k <= n == v.len(),
            v@ == s@,
            forall|j: int| start <= j < k ==> s@[j] != '/',
            done + split_spec(s@.skip(start as int), '/') == split_spec(s@, '/'),
            pcs_view(out@) == base + root + part_comps(done),
        decreases n - k,
    {
        if v[k] == '/' {
            let ghost rest = s@.skip(start as int);
            proof {
                assert forall|j: int| 0 <= j < k - start implies rest[j] != '/' by {
                    assert(rest[j] == s@[j + start]);
                }
                assert(rest[k - start] == s@[k as int]);
                lemma_split_step(rest, '/', k - start);
                assert(rest.skip(k - start + 1) =~= s@.skip(k + 1));
                assert(rest.take(k - start) =~= v@.subrange(start as int, k as int));
            }
            piece_comps(&v, start, k, out);
            proof {
                let piece = v@.subrange(start as int, k as int);
                lemma_part_comps_append(done, seq![piece]);
                assert(done.push(piece) =~= done + seq![piece]);
                assert(done.push(piece) + split_spec(s@.skip(k + 1), '/') =~= done + (seq![piece] + split_spec(s@.skip(k + 1), '/')));
                done = done.push(piece);
            }
            start = k + 1;
        }
        k = k + 1;
    }
    let ghost rest = s@.skip(start as int);
    proof {
        assert forall|j: int| 0 <= j < rest.len() implies rest[j] != '/' by {
            assert(rest[j] == s@[j + start]);
        }
        lemma_split_last(rest, '/');
        assert(rest =~= v@.subrange(start as int, n as int));
    }
    piece_comps(&v, start, n, out);
    proof {
        lemma_part_comps_append(done, seq![rest]);
        assert(done + seq![rest] == split_spec(s@, '/'));
        assert(base + root + part_comps(done) + part_comps(seq![rest]) =~= base + (root + part_comps(done + seq![rest])));
    }
}

proof fn lemma_fold_append(acc: Seq<Comp>, a: Seq<Comp>, c: Comp)
    ensures
        fold_comps(acc, a.push(c)) == fold_comps(fold_comps(acc, a), seq![c]),
    decreases a.len(),
{
    if a.len() == 0 {
        assert(a.push(c) =~= seq![c]);
    } else {
        let next = match a[0] {
            Comp::Root => seq![Comp::Root],
            Comp::Up => if acc.len() > 0 && !(acc.last() is Root) {
                acc.drop_last()
            } else {
                acc
            },
            Comp::Name(n) => acc.push(Comp::Name(n)),
        };
        assert(a.push(c).drop_first() =~= a.drop_first().push(c));
        assert(a.push(c)[0] == a[0]);
        lemma_fold_append(next, a.drop_first(), c);
    }
}

/// Components taken in turn, as [`fold_comps`] does.
fn fold_path(cs: &Vec<PathComp>) -> (r: Vec<PathComp>)
    ensures
        pcs_view(r@) == fold_comps(Seq::empty(), pcs_view(cs@)),
{
    let ghost all = pcs_view(cs@);
    let mut acc: Vec<PathComp> = Vec::new();
    let mut k: usize = 0;
    proof {
        assert(all.take(0) =~= Seq::<Comp>::empty());
    }
    while k < cs.len()
        invariant
            k <= cs.len(),
            all == pcs_view(cs@),
            pcs_view(acc@) == fold_comps(Seq::empty(), all.take(k as int)),
        decreases cs.len() - k,
    {
        let ghost cv = all[k as int];
        proof {
            assert(all.take(k + 1) =~= all.take(k as int).push(cv));
            lemma_fold_append(Seq::empty(), all.take(k as int), cv);
            assert(seq![cv].drop_first() =~= Seq::<Comp>::empty());
            assert(cv == pc_view(cs@[k as int]));
            reveal_with_fuel(fold_comps, 2);
        }
        let ghost before_acc = pcs_view(acc@);
        match &cs[k] {
            PathComp::Root => {
                acc = Vec::new();
                acc.push(PathComp::Root);
                proof {
                    assert(pcs_view(acc@) =~= seq![Comp::Root]);
                }
            },
            PathComp::Up => {
                let last_is_root = acc.len() > 0 && match &acc[acc.len() - 1] {
                    PathComp::Root => true,
                    _ => false,
                };
                proof {
                    if acc.len() > 0 {
                        assert(before_acc.last() == pc_view(acc@[acc.len() - 1]));
                    }
                }
                if acc.len() > 0 && !last_is_root {
                    acc.pop();
                    proof {
                        assert(pcs_view(acc@) =~= before_acc.drop_last());
                    }
                }
            },
            PathComp::Name(nm) => {
                acc.push(PathComp::Name(nm.clone()));
                proof {
                    assert(pcs_view(acc@) =~= before_acc.push(cv));
                }
            },
        }
        k = k + 1;
    }
    proof {
        assert(all.take(cs.len() as int) =~= all);
    }
    acc
}

/// Names joined by slashes.
fn join_path_names(cs: &Vec<PathComp>, from: usize) -> (r: String)
    requires
        from <= cs.len(),
    ensures
        r@ == join_names(pcs_view(cs@).skip(from as int)),
    decreases cs.len() - from,
{
    let ghost v = pcs_view(cs@).skip(from as int);
    if from == cs.len() {
        return String::new();
    }
    let mut r = match &cs[from] {
        PathComp::Name(n) => n.clone(),
        PathComp::Up => "..".to_owned(),
        PathComp::Root => String::new(),
    };
    proof {
        assert(v[0] == pc_view(cs@[from as int]));
    }
    if from + 1 == cs.len() {
        return r;
    }
    let rest = join_path_names(cs, from + 1);
    proof {
        assert(v.drop_first() =~= pcs_view(cs@).skip(from + 1));
    }
    push_char(&mut r, '/');
    let rv = chars_of(rest.as_str());
    let mut k: usize = 0;
    let ghost head = r@;
    while k < rv.len()
        invariant
            k <= rv.len(),
            rv@ == rest@,
            r@ == head + rest@.take(k as int),
        decreases rv.len() - k,
    {
        push_char(&mut r, rv[k]);
        proof {
            assert(rest@.take(k + 1) =~= rest@.take(k as int).push(rest@[k as int]));
            assert(head + rest@.take(k + 1) =~= (head + rest@.take(k as int)).push(rest@[k as int]));
        }
        k = k + 1;
    }
    proof {
        assert(rest@.take(rv.len() as int) =~= rest@);
    }
    r
}

/// The text of a path made of components.
fn render_path(cs: &Vec<PathComp>) -> (r: String)
    ensures
        r@ == render(pcs_view(cs@)),
{
    let is_rooted = cs.len() > 0 && match &cs[0] {
        PathComp::Root => true,
        _ => false,
    };
    if is_rooted {
        proof {
            assert(pcs_view(cs@)[0] == pc_view(cs@[0]));
            assert(pcs_view(cs@).drop_first() =~= pcs_view(cs@).skip(1));
        }
        let names = join_path_names(cs, 1);
        let mut r = String::new();
        push_char(&mut r, '/');
        let rv = chars_of(names.as_str());
        let mut k: usize = 0;
        while k < rv.len()
            invariant
                k <= rv.len(),
                rv@ == names@,
                r@ == seq!['/'] + names@.take(k as int),
            decreases rv.len() - k,
        {
            push_char(&mut r, rv[k]);
            proof {
                assert(names@.take(k + 1) =~= names@.take(k as int).push(names@[k as int]));
                assert(seq!['/'] + names@.take(k + 1) =~= (seq!['/'] + names@.take(k as int)).push(names@[k as int]));
            }
            k = k + 1;
        }
        proof {
            assert(names@.take(rv.len() as int) =~= names@);
        }
        r
    } else {
        proof {
            if cs.len() > 0 {
                assert(pcs_view(cs@)[0] == pc_view(cs@[0]));
            }
            assert(pcs_view(cs@).skip(0) =~= pcs_view(cs@));
        }
        join_path_names(cs, 0)
    }
}

/// The resolved components of `rel` against `base`.
pub fn resolve(base: &str, rel: &str) -> (r: Vec<PathComp>)
    ensures
        pcs_view(r@) == fold_comps(Seq::empty(), comps_of(base@) + comps_of(rel@)),
{
    let mut cs: Vec<PathComp> = Vec::new();
    components(base, &mut cs);
    components(rel, &mut cs);
    proof {
        assert(Seq::<Comp>::empty() + comps_of(base@) + comps_of(rel@) =~= comps_of(base@) + comps_of(rel@));
    }
    fold_path(&cs)
}

/// `rel` resolved against `base` without looking at the file system: an absolute `rel`
/// starts over, `.` is dropped and `..` drops the last name (never the root).
pub fn path_join(base: &str, rel: &str) -> (r: String)
    ensures
        r@ == path_join_spec(base@, rel@),
{
    let cs = resolve(base, rel);
    render_path(&cs)
}

/// The time zone that the link `/etc/localtime` points to: the part of the resolved target
/// after `/etc/zoneinfo`, if the target lies there.
pub fn timezone_of_link(target: &str) -> (r: Option<String>)
    ensures
        match zoneinfo_rest(fold_comps(Seq::empty(), comps_of("/etc"@) + comps_of(target@))) {
            Some(z) => r matches Some(x) && x@ == z,
            None => r is None,
        },
{
    let cs = resolve("/etc", target);
    let ghost v = pcs_view(cs@);
    if cs.len() < 3 {
        return None;
    }
    let ok0 = match &cs[0] {
        PathComp::Root => true,
        _ => false,
    };
    let ok1 = match &cs[1] {
        PathComp::Name(n) => str_eq(n.as_str(), "etc"),
        _ => false,
    };
    let ok2 = match &cs[2] {
        PathComp::Name(n) => str_eq(n.as_str(), "zoneinfo"),
        _ => false,
    };
    proof {
        assert(v[0] == pc_view(cs@[0]));
        assert(v[1] == pc_view(cs@[1]));
        assert(v[2] == pc_view(cs@[2]));
    }
    if ok0 && ok1 && ok2 {
        Some(join_path_names(&cs, 3))
    } else {
        None
    }
}

/// No step up is left, and the root, if any, comes first.
pub open spec fn resolved(cs: Seq<Comp>) -> bool {
    forall|i: int| 0 <= i < cs.len() ==> !(#[trigger] cs[i] is Up) && (cs[i] is Root ==> i == 0)
}

proof fn lemma_fold_resolved(acc: Seq<Comp>, cs: Seq<Comp>)
    requires
        resolved(acc),
    ensures
        resolved(fold_comps(acc, cs)),
    decreases cs.len(),
{
    if cs.len() > 0 {
        let next = match cs[0] {
            Comp::Root => seq![Comp::Root],
            Comp::Up => if acc.len() > 0 && !(acc.last() is Root) {
                acc.drop_last()
            } else {
                acc
            },
            Comp::Name(n) => acc.push(Comp::Name(n)),
        };
        assert(resolved(next)) by {
            match cs[0] {
                Comp::Root => {},
                Comp::Up => {
                    if acc.len() > 0 && !(acc.last() is Root) {
                        assert forall|i: int| 0 <= i < next.len() implies !(#[trigger] next[i] is Up) && (next[i] is Root ==> i == 0) by {
                            assert(next[i] == acc[i]);
                        }
                    }
                },
                Comp::Name(n) => {
                    assert forall|i: int| 0 <= i < next.len() implies !(#[trigger] next[i] is Up) && (next[i] is Root ==> i == 0) by {
                        if i < acc.len() {
                            assert(next[i] == acc[i]);
                        }
                    }
                },
            }
        }
        lemma_fold_resolved(next, cs.drop_first());
    }
}

proof fn lemma_fold_concat(acc: Seq<Comp>, a: Seq<Comp>, b: Seq<Comp>)
    ensures
        fold_comps(acc, a + b) == fold_comps(fold_comps(acc, a), b),
    decreases a.len(),
{
    if a.len() == 0 {
        assert(a + b =~= b);
    } else {
        let next = match a[0] {
            Comp::Root => seq![Comp::Root],
            Comp::Up => if acc.len() > 0 && !(acc.last() is Root) {
                acc.drop_last()
            } else {
                acc
            },
            Comp::Name(n) => acc.push(Comp::Name(n)),
        };
        assert((a + b).drop_first() =~= a.drop_first() + b);
        assert((a + b)[0] == a[0]);
        lemma_fold_concat(next, a.drop_first(), b);
    }
}

/// A joined path holds no step up, and a root only at its start: every `..` is resolved.
pub proof fn law_join_resolves_steps(base: Seq<char>, rel: Seq<char>)
    ensures
        resolved(fold_comps(Seq::empty(), comps_of(base) + comps_of(rel))),
{
    lemma_fold_resolved(Seq::empty(), comps_of(base) + comps_of(rel));
}

proof fn lemma_absolute_drops_base(base: Seq<char>, rel: Seq<char>)
    requires
        rel.len() > 0,
        rel[0] == '/',
    ensures
        path_join_spec(base, rel) == path_join_spec(Seq::empty(), rel),
{
    let cb = comps_of(base);
    let cr = comps_of(rel);
    assert(cr[0] is Root);
    lemma_fold_concat(Seq::empty(), cb, cr);
    let mid = fold_comps(Seq::empty(), cb);
    lemma_comps_of_empty();
    assert(Seq::<Comp>::empty() + cr =~= cr);
    assert(fold_comps(mid, cr) == fold_comps(seq![Comp::Root], cr.drop_first()));
    assert(fold_comps(Seq::empty(), cr) == fold_comps(seq![Comp::Root], cr.drop_first()));
}


/// Joining an absolute path gives that path resolved on its own: the base is dropped, and
/// any base, the root among them, gives the same path.
pub proof fn law_join_absolute_replaces_base(base: Seq<char>, rel: Seq<char>)
    requires
        rel.len() > 0,
        rel[0] == '/',
    ensures
        path_join_spec(base, rel) == path_join_spec(Seq::empty(), rel),
        path_join_spec(base, rel) == path_join_spec("/"@, rel),
{
    lemma_absolute_drops_base(base, rel);
    lemma_absolute_drops_base("/"@, rel);
}

/// The path starts with a slash.
pub open spec fn is_absolute(s: Seq<char>) -> bool {
    s.len() > 0 && s[0] == '/'
}

/// The components start with the root.
pub open spec fn starts_root(cs: Seq<Comp>) -> bool {
    cs.len() > 0 && cs[0] is Root
}

/// A name as a path can hold it: not empty, no slash, and neither `.` nor `..`.
pub open spec fn name_ok(n: Seq<char>) -> bool {
    &&& n.len() > 0
    &&& n != "."@
    &&& n != ".."@
    &&& forall|j: int| 0 <= j < n.len() ==> n[j] != '/'
}

/// A component whose name, if it has one, a path can hold.
pub open spec fn comp_ok(c: Comp) -> bool {
    match c {
        Comp::Name(n) => name_ok(n),
        _ => true,
    }
}

/// Every component is [`comp_ok`].
pub open spec fn comps_ok(cs: Seq<Comp>) -> bool {
    forall|i: int| 0 <= i < cs.len() ==> comp_ok(#[trigger] cs[i])
}

/// Every component is a name.
pub open spec fn only_names(cs: Seq<Comp>) -> bool {
    forall|i: int| 0 <= i < cs.len() ==> (#[trigger] cs[i] is Name)
}

proof fn lemma_split_pieces(s: Seq<char>, c: char)
    ensures
        forall|k: int, j: int|
            0 <= k < split_spec(s, c).len() && 0 <= j < split_spec(s, c)[k].len() ==> #[trigger] split_spec(s, c)[k][j] != c,
    decreases s.len(),
{
    lemma_find_char(s, c);
    match find_char(s, c) {
        Some(i) => {
            lemma_split_pieces(s.skip(i + 1), c);
            let rest = split_spec(s.skip(i + 1), c);
            assert forall|k: int, j: int|
                0 <= k < split_spec(s, c).len() && 0 <= j < split_spec(s, c)[k].len() implies #[trigger] split_spec(s, c)[k][j] != c by {
                if k > 0 {
                    assert(split_spec(s, c)[k] == rest[k - 1]);
                }
            }
        },
        None => {},
    }
}

proof fn lemma_part_comps_ok(ps: Seq<Seq<char>>)
    requires
        forall|k: int, j: int| 0 <= k < ps.len() && 0 <= j < ps[k].len() ==> #[trigger] ps[k][j] != '/',
    ensures
        comps_ok(part_comps(ps)),
        forall|i: int| 0 <= i < part_comps(ps).len() ==> !(#[trigger] part_comps(ps)[i] is Root),
    decreases ps.len(),
{
    if ps.len() > 0 {
        let rest = part_comps(ps.drop_first());
        assert forall|k: int, j: int| 0 <= k < ps.drop_first().len() && 0 <= j < ps.drop_first()[k].len() implies #[trigger] ps.drop_first()[k][j] != '/' by {
            assert(ps.drop_first()[k] == ps[k + 1]);
            assert(ps[k + 1][j] != '/');
        }
        lemma_part_comps_ok(ps.drop_first());
        let p = ps[0];
        if p.len() == 0 || p == "."@ {
        } else {
            let head = if p == ".."@ { Comp::Up } else { Comp::Name(p) };
            let all = seq![head] + rest;
            assert forall|j: int| 0 <= j < p.len() implies p[j] != '/' by {
                assert(ps[0][j] != '/');
            }
            assert forall|i: int| 0 <= i < all.len() implies comp_ok(#[trigger] all[i]) && !(all[i] is Root) by {
                if i > 0 {
                    assert(all[i] == rest[i - 1]);
                }
            }
        }
    }
}

proof fn lemma_comps_of_ok(s: Seq<char>)
    ensures
        comps_ok(comps_of(s)),
        forall|i: int| 0 <= i < comps_of(s).len() && (#[trigger] comps_of(s)[i] is Root) ==> i == 0 && is_absolute(s),
        is_absolute(s) ==> starts_root(comps_of(s)),
{
    let ps = split_spec(s, '/');
    lemma_split_pieces(s, '/');
    lemma_part_comps_ok(ps);
    let root: Seq<Comp> = if is_absolute(s) { seq![Comp::Root] } else { Seq::empty() };
    let cs = comps_of(s);
    assert forall|i: int| 0 <= i < cs.len() implies comp_ok(#[trigger] cs[i]) && (cs[i] is Root ==> i == 0 && is_absolute(s)) by {
        if i >= root.len() {
            assert(cs[i] == part_comps(ps)[i - root.len()]);
        }
    }
}

proof fn lemma_fold_ok(acc: Seq<Comp>, cs: Seq<Comp>)
    requires
        comps_ok(acc),
        comps_ok(cs),
    ensures
        comps_ok(fold_comps(acc, cs)),
    decreases cs.len(),
{
    if cs.len() > 0 {
        let next = match cs[0] {
            Comp::Root => seq![Comp::Root],
            Comp::Up => if acc.len() > 0 && !(acc.last() is Root) {
                acc.drop_last()
            } else {
                acc
            },
            Comp::Name(n) => acc.push(Comp::Name(n)),
        };
        assert(comps_ok(next)) by {
            assert(comp_ok(cs[0]));
            assert forall|i: int| 0 <= i < next.len() implies comp_ok(#[trigger] next[i]) by {
                if i < acc.len() && !(cs[0] is Root) {
                    assert(next[i] == acc[i]);
                }
            }
        }
        assert forall|i: int| 0 <= i < cs.drop_first().len() implies comp_ok(#[trigger] cs.drop_first()[i]) by {
            assert(cs.drop_first()[i] == cs[i + 1]);
        }
        lemma_fold_ok(next, cs.drop_first());
    }
}

proof fn lemma_fold_root(acc: Seq<Comp>, cs: Seq<Comp>)
    ensures
        starts_root(fold_comps(acc, cs)) <==> (starts_root(acc) || exists|i: int| 0 <= i < cs.len() && (#[trigger] cs[i] is Root)),
    decreases cs.len(),
{
    if cs.len() > 0 {
        let next = match cs[0] {
            Comp::Root => seq![Comp::Root],
            Comp::Up => if acc.len() > 0 && !(acc.last() is Root) {
                acc.drop_last()
            } else {
                acc
            },
            Comp::Name(n) => acc.push(Comp::Name(n)),
        };
        lemma_fold_root(next, cs.drop_first());
        assert(starts_root(next) <==> (starts_root(acc) || cs[0] is Root)) by {
            if acc.len() > 1 && !(cs[0] is Root) {
                assert(next[0] == acc[0]);
            }
        }
        if exists|i: int| 0 <= i < cs.len() && (#[trigger] cs[i] is Root) {
            let i = choose|i: int| 0 <= i < cs.len() && (#[trigger] cs[i] is Root);
            if i > 0 {
                assert(cs.drop_first()[i - 1] is Root);
            }
        }
        if exists|i: int| 0 <= i < cs.drop_first().len() && (#[trigger] cs.drop_first()[i] is Root) {
            let i = choose|i: int| 0 <= i < cs.drop_first().len() && (#[trigger] cs.drop_first()[i] is Root);
            assert(cs[i + 1] is Root);
        }
    }
}

proof fn lemma_fold_names(acc: Seq<Comp>, cs: Seq<Comp>)
    requires
        only_names(cs),
    ensures
        fold_comps(acc, cs) == acc + cs,
    decreases cs.len(),
{
    if cs.len() == 0 {
        assert(acc + cs =~= acc);
    } else {
        assert(cs[0] is Name);
        let n = cs[0]->0;
        assert forall|i: int| 0 <= i < cs.drop_first().len() implies (#[trigger] cs.drop_first()[i] is Name) by {
            assert(cs.drop_first()[i] == cs[i + 1]);
        }
        lemma_fold_names(acc.push(Comp::Name(n)), cs.drop_first());
        assert(acc.push(Comp::Name(n)) + cs.drop_first() =~= acc + cs);
    }
}

proof fn lemma_split_join(ns: Seq<Comp>)
    requires
        only_names(ns),
        comps_ok(ns),
    ensures
        part_comps(split_spec(join_names(ns), '/')) == ns,
    decreases ns.len(),
{
    if ns.len() == 0 {
        lemma_split_last(Seq::empty(), '/');
        reveal_with_fuel(part_comps, 2);
        assert(seq![Seq::<char>::empty()].drop_first() =~= Seq::<Seq<char>>::empty());
    } else {
        assert(ns[0] is Name && comp_ok(ns[0]));
        let t = ns[0]->0;
        assert(comp_text(ns[0]) == t);
        assert(seq![t].drop_first() =~= Seq::<Seq<char>>::empty());
        assert(part_comps(seq![t]) =~= seq![ns[0]]) by {
            assert(part_comps(Seq::<Seq<char>>::empty()) == Seq::<Comp>::empty());
        }
        if ns.len() == 1 {
            lemma_split_last(t, '/');
        } else {
            let rest = ns.drop_first();
            assert forall|i: int| 0 <= i < rest.len() implies (#[trigger] rest[i] is Name) && comp_ok(rest[i]) by {
                assert(rest[i] == ns[i + 1]);
                assert(comp_ok(ns[i + 1]));
            }
            lemma_split_join(rest);
            let jr = join_names(rest);
            let j = t + seq!['/'] + jr;
            assert(j == join_names(ns));
            assert(j[t.len() as int] == '/');
            assert forall|k: int| 0 <= k < t.len() implies j[k] != '/' by {
                assert(j[k] == t[k]);
            }
            lemma_split_step(j, '/', t.len() as int);
            assert(j.take(t.len() as int) =~= t);
            assert(j.skip(t.len() as int + 1) =~= jr);
            lemma_part_comps_append(seq![t], split_spec(jr, '/'));
            assert(seq![ns[0]] + rest =~= ns);
        }
    }
}

proof fn lemma_render_roundtrip(cs: Seq<Comp>)
    requires
        resolved(cs),
        comps_ok(cs),
    ensures
        comps_of(render(cs)) == cs,
        is_absolute(render(cs)) <==> starts_root(cs),
{
    let names = if starts_root(cs) { cs.drop_first() } else { cs };
    assert forall|i: int| 0 <= i < names.len() implies (#[trigger] names[i] is Name) && comp_ok(names[i]) by {
        if starts_root(cs) {
            assert(names[i] == cs[i + 1]);
            assert(!(cs[i + 1] is Up) && !(cs[i + 1] is Root));
        } else {
            assert(names[i] == cs[i]);
            assert(!(cs[i] is Up));
            assert(cs[i] is Root ==> i == 0);
        }
    }
    lemma_split_join(names);
    let j = join_names(names);
    if names.len() > 0 {
        let t = names[0]->0;
        assert(comp_text(names[0]) == t);
        assert(t.len() > 0 && t[0] != '/');
        if names.len() == 1 {
            assert(j == t);
        } else {
            assert(j == t + seq!['/'] + join_names(names.drop_first()));
        }
        assert(j[0] == t[0]);
    }
    if starts_root(cs) {
        let s = seq!['/'] + j;
        assert(render(cs) == s);
        assert(s[0] == '/');
        assert forall|k: int| 0 <= k < 0 implies s[k] != '/' by {}
        lemma_split_step(s, '/', 0);
        assert(s.take(0) =~= Seq::<char>::empty());
        assert(s.skip(1) =~= j);
        lemma_part_comps_append(seq![Seq::<char>::empty()], split_spec(j, '/'));
        assert(part_comps(seq![Seq::<char>::empty()]) =~= Seq::<Comp>::empty()) by {
            assert(seq![Seq::<char>::empty()].drop_first() =~= Seq::<Seq<char>>::empty());
            assert(part_comps(Seq::<Seq<char>>::empty()) == Seq::<Comp>::empty());
        }
        assert(Seq::<Comp>::empty() + names =~= names);
        assert(seq![Comp::Root] + names =~= cs);
    } else {
        assert(render(cs) == j);
        assert(Seq::<Comp>::empty() + names =~= names);
    }
}

proof fn lemma_comps_of_empty()
    ensures
        comps_of(Seq::empty()) == Seq::<Comp>::empty(),
{
    lemma_split_last(Seq::<char>::empty(), '/');
    reveal_with_fuel(part_comps, 2);
    assert(seq![Seq::<char>::empty()].drop_first() =~= Seq::<Seq<char>>::empty());
    assert(Seq::<Comp>::empty() + Seq::<Comp>::empty() =~= Seq::<Comp>::empty());
}

proof fn lemma_fold_resolved_fixed(cs: Seq<Comp>)
    requires
        resolved(cs),
    ensures
        fold_comps(Seq::empty(), cs) == cs,
{
    if starts_root(cs) {
        let rest = cs.drop_first();
        assert forall|i: int| 0 <= i < rest.len() implies (#[trigger] rest[i] is Name) by {
            assert(rest[i] == cs[i + 1]);
            assert(!(cs[i + 1] is Up) && !(cs[i + 1] is Root));
        }
        lemma_fold_names(seq![Comp::Root], rest);
        assert(seq![Comp::Root] + rest =~= cs);
    } else {
        assert forall|i: int| 0 <= i < cs.len() implies (#[trigger] cs[i] is Name) by {
            assert(!(cs[i] is Up));
            assert(cs[i] is Root ==> i == 0);
        }
        lemma_fold_names(Seq::empty(), cs);
        assert(Seq::<Comp>::empty() + cs =~= cs);
    }
}

proof fn lemma_joined_comps(base: Seq<char>, rel: Seq<char>)
    ensures
        resolved(fold_comps(Seq::empty(), comps_of(base) + comps_of(rel))),
        comps_ok(fold_comps(Seq::empty(), comps_of(base) + comps_of(rel))),
{
    let all = comps_of(base) + comps_of(rel);
    lemma_fold_resolved(Seq::empty(), all);
    lemma_comps_of_ok(base);
    lemma_comps_of_ok(rel);
    assert forall|i: int| 0 <= i < all.len() implies comp_ok(#[trigger] all[i]) by {
        if i < comps_of(base).len() {
            assert(all[i] == comps_of(base)[i]);
        } else {
            assert(all[i] == comps_of(rel)[i - comps_of(base).len()]);
        }
    }
    lemma_fold_ok(Seq::empty(), all);
}

/// A joined path is absolute exactly when one of the two paths is: the root is kept when an
/// input has one, and none comes from nowhere.
pub proof fn law_join_keeps_root(base: Seq<char>, rel: Seq<char>)
    ensures
        starts_root(fold_comps(Seq::empty(), comps_of(base) + comps_of(rel))) <==> (is_absolute(base)
            || is_absolute(rel)),
        is_absolute(path_join_spec(base, rel)) <==> (is_absolute(base) || is_absolute(rel)),
{
    let cb = comps_of(base);
    let cr = comps_of(rel);
    let all = cb + cr;
    lemma_comps_of_ok(base);
    lemma_comps_of_ok(rel);
    lemma_fold_root(Seq::empty(), all);
    if is_absolute(base) {
        assert(all[0] is Root);
    }
    if is_absolute(rel) {
        assert(all[cb.len() as int] == cr[0]);
        assert(all[cb.len() as int] is Root);
    }
    if exists|i: int| 0 <= i < all.len() && (#[trigger] all[i] is Root) {
        let i = choose|i: int| 0 <= i < all.len() && (#[trigger] all[i] is Root);
        if i < cb.len() {
            assert(all[i] == cb[i]);
        } else {
            assert(all[i] == cr[i - cb.len()]);
        }
    }
    lemma_joined_comps(base, rel);
    lemma_render_roundtrip(fold_comps(Seq::empty(), all));
}

/// Joining a joined path again, with nothing, changes nothing: the join gives a path in its
/// resolved form.
pub proof fn law_join_is_resolved_form(base: Seq<char>, rel: Seq<char>)
    ensures
        path_join_spec(path_join_spec(base, rel), Seq::empty()) == path_join_spec(base, rel),
{
    let cs = fold_comps(Seq::empty(), comps_of(base) + comps_of(rel));
    lemma_joined_comps(base, rel);
    lemma_render_roundtrip(cs);
    lemma_comps_of_empty();
    assert(comps_of(render(cs)) + comps_of(Seq::empty()) =~= cs);
    lemma_fold_resolved_fixed(cs);
}

} // verus!
