use vstd::prelude::*;
use crate::text::{append_str, push_char};

verus! {

/// The path that `PathBuf::push` makes from `base` and `part` on the Unix
/// systems the explorer runs on: an absolute `part` (one that starts with
/// `/`) replaces `base`; otherwise `part` follows `base`, after a `/` when
/// `base` is not empty and does not already end with one.
pub open spec fn path_pushed(base: Seq<char>, part: Seq<char>) -> Seq<char> {
    if part.len() > 0 && part[0] == '/' {
        part
    } else if base.len() > 0 && base.last() != '/' {
        base.push('/') + part
    } else {
        base + part
    }
}

/// Joins `part` to the path `base` as `PathBuf::push` does on Unix.
pub fn push_path(base: &str, part: &str) -> (r: String)
    ensures
        r@ == path_pushed(base@, part@),
{
    let pn = part.unicode_len();
    if pn > 0 && part.get_char(0) == '/' {
        return part.to_owned();
    }
    let bn = base.unicode_len();
    let mut r = base.to_owned();
    if bn > 0 && base.get_char(bn - 1) != '/' {
        push_char(&mut r, '/');
    }
    append_str(&mut r, part);
    r
}

/// A button of the path bar: the name of a folder of the path, and the
/// path it leads to (`None` for the folder shown, which is not a link).
pub struct Crumb {
    pub name: String,
    pub target: Option<String>,
}

/// A crumb as plain text.
pub open spec fn crumb_view(c: Crumb) -> (Seq<char>, Option<Seq<char>>) {
    (c.name@, match c.target {
        Some(t) => Some(t@),
        None => None,
    })
}

/// The crumbs of the components of a path from component `i` on, `base`
/// being the path of the components before it: an empty component gives no
/// crumb; the others lead to the path up to them, but the last component,
/// which leads nowhere.
pub open spec fn crumbs_from(parts: Seq<Seq<char>>, i: int, base: Seq<char>) -> Seq<(Seq<char>, Option<Seq<char>>)>
    decreases parts.len() - i,
{
    if i >= parts.len() || i < 0 {
        seq![]
    } else if parts[i].len() == 0 {
        crumbs_from(parts, i + 1, base)
    } else {
        let p = path_pushed(base, parts[i]);
        seq![(parts[i], if i == parts.len() - 1 { None } else { Some(p) })] + crumbs_from(parts, i + 1, p)
    }
}

/// The buttons of the path bar for the components of the folder shown
/// (as `Path::components` gives them, the root first).
pub fn breadcrumbs(parts: &Vec<String>) -> (r: Vec<Crumb>)
    ensures
        r@.map_values(|c: Crumb| crumb_view(c)) == crumbs_from(
            parts@.map_values(|s: String| s@),
            0,
            Seq::<char>::empty(),
        ),
{
    let ghost pv = parts@.map_values(|s: String| s@);
    let n = parts.len();
    let mut r: Vec<Crumb> = Vec::new();
    let mut current = String::new();
    let mut i: usize = 0;
    while i < n
        invariant
            i <= n,
            n == parts@.len(),
            pv == parts@.map_values(|s: String| s@),
            r@.map_values(|c: Crumb| crumb_view(c)) + crumbs_from(pv, i as int, current@)
                == crumbs_from(pv, 0, Seq::<char>::empty()),
        decreases n - i,
    {
        let ghost before = r@;
        let name = parts[i].as_str();
        assert(pv[i as int] == name@);
        if name.unicode_len() > 0 {
            let next = push_path(current.as_str(), name);
            let target = if i == n - 1 {
                None
            } else {
                Some(next.clone())
            };
            let crumb = Crumb { name: name.to_owned(), target };
            assert(crumb_view(crumb) == (pv[i as int], if i == n - 1 { None } else { Some(next@) }));
            r.push(crumb);
            assert(r@.map_values(|c: Crumb| crumb_view(c)) =~= before.map_values(|c: Crumb| crumb_view(c)).push(
                crumb_view(crumb),
            ));
            assert(before.map_values(|c: Crumb| crumb_view(c)).push(crumb_view(crumb)) + crumbs_from(pv, i + 1, next@)
                =~= before.map_values(|c: Crumb| crumb_view(c)) + (seq![crumb_view(crumb)] + crumbs_from(pv, i + 1, next@)));
            current = next;
        }
        i = i + 1;
    }
    assert(crumbs_from(pv, n as int, current@) =~= Seq::<(Seq<char>, Option<Seq<char>>)>::empty());
    assert(r@.map_values(|c: Crumb| crumb_view(c)) + Seq::<(Seq<char>, Option<Seq<char>>)>::empty()
        =~= r@.map_values(|c: Crumb| crumb_view(c)));
    r
}


/// The path made of the components `ps`, pushed one after the other onto
/// the empty path.
pub open spec fn joined_path(ps: Seq<Seq<char>>) -> Seq<char>
    decreases ps.len(),
{
    if ps.len() == 0 {
        Seq::empty()
    } else {
        path_pushed(joined_path(ps.drop_last()), ps.last())
    }
}

proof fn lemma_crumbs_from_prefix(parts: Seq<Seq<char>>, i: int)
    requires
        0 <= i <= parts.len(),
        forall|j: int| 0 <= j < parts.len() ==> #[trigger] parts[j].len() > 0,
    ensures
        ({
            let cs = crumbs_from(parts, i, joined_path(parts.take(i)));
            &&& cs.len() == parts.len() - i
            &&& forall|k: int| 0 <= k < cs.len() ==> #[trigger] cs[k] == (
                parts[i + k],
                if i + k == parts.len() - 1 { None } else { Some(joined_path(parts.take(i + k + 1))) },
            )
        }),
    decreases parts.len() - i,
{
    if i < parts.len() {
        assert(parts.take(i + 1).drop_last() =~= parts.take(i));
        assert(parts.take(i + 1).last() == parts[i]);
        assert(parts[i].len() > 0);
        lemma_crumbs_from_prefix(parts, i + 1);
        let cs = crumbs_from(parts, i, joined_path(parts.take(i)));
        let rest = crumbs_from(parts, i + 1, joined_path(parts.take(i + 1)));
        assert forall|k: int| 0 <= k < cs.len() implies #[trigger] cs[k] == (
            parts[i + k],
            if i + k == parts.len() - 1 { None } else { Some(joined_path(parts.take(i + k + 1))) },
        ) by {
            if k > 0 {
                assert(cs[k] == rest[k - 1]);
            }
        }
    }
}

/// When no component is empty (as `Path::components` gives them), the path
/// bar has one crumb per component, named after it; the crumb of the folder
/// shown (the last component) leads nowhere, and every other crumb leads to
/// the path made of all the components up to and including its own.
pub proof fn law_crumb_targets(parts: Seq<Seq<char>>)
    requires
        forall|j: int| 0 <= j < parts.len() ==> #[trigger] parts[j].len() > 0,
    ensures
        crumbs_from(parts, 0, Seq::<char>::empty()).len() == parts.len(),
        forall|j: int| 0 <= j < parts.len() ==> (#[trigger] crumbs_from(parts, 0, Seq::<char>::empty())[j]).0 == parts[j],
        forall|j: int| 0 <= j < parts.len() - 1 ==> (#[trigger] crumbs_from(parts, 0, Seq::<char>::empty())[j]).1
            == Some(joined_path(parts.take(j + 1))),
        parts.len() > 0 ==> crumbs_from(parts, 0, Seq::<char>::empty())[parts.len() - 1].1 is None,
{
    assert(parts.take(0) =~= Seq::<Seq<char>>::empty());
    lemma_crumbs_from_prefix(parts, 0);
}

/// An empty component gives no crumb and changes none of the others.
pub proof fn law_empty_component_ignored(parts: Seq<Seq<char>>, i: int, base: Seq<char>)
    requires
        0 <= i < parts.len(),
        parts[i].len() == 0,
    ensures
        crumbs_from(parts, i, base) == crumbs_from(parts, i + 1, base),
{
}

/// Pushing onto a path: an absolute part replaces the path; any other part
/// ends the result, after the path and the one separator between them.
pub proof fn law_push_path(base: Seq<char>, part: Seq<char>)
    ensures
        part.len() > 0 && part[0] == '/' ==> path_pushed(base, part) == part,
        !(part.len() > 0 && part[0] == '/') ==> path_pushed(base, part).len() >= base.len() + part.len()
            && path_pushed(base, part).take(base.len() as int) == base
            && path_pushed(base, part).skip(path_pushed(base, part).len() - part.len()) == part,
        !(part.len() > 0 && part[0] == '/') && base.len() > 0 ==> path_pushed(base, part)[
            path_pushed(base, part).len() - part.len() - 1] == '/',
{
    if !(part.len() > 0 && part[0] == '/') {
        let r = path_pushed(base, part);
        assert(r.take(base.len() as int) =~= base);
        assert(r.skip(r.len() - part.len()) =~= part);
    }
}

} // verus!
