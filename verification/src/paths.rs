//! Pure path arithmetic for the transfer engine.
//!
//! Remote paths are plain strings with `/` as the separator.  Every remote
//! path the engine touches is built here: joining a base path with a
//! relative component, taking the base name of the upload root, stepping to
//! a parent directory, and computing a path relative to the upload root.

use vstd::prelude::*;

verus! {

/// `base` joined with `name`, inserting a separator unless `base` already
/// ends with one or is empty.
pub open spec fn join_spec(base: Seq<char>, name: Seq<char>) -> Seq<char> {
    if base.len() == 0 {
        name
    } else if base.last() == '/' {
        base + name
    } else {
        base + seq!['/'] + name
    }
}

/// `p` with every trailing separator removed.
pub open spec fn strip_trailing_slashes(p: Seq<char>) -> Seq<char>
    decreases p.len(),
{
    if p.len() > 0 && p.last() == '/' {
        strip_trailing_slashes(p.drop_last())
    } else {
        p
    }
}

/// `p` with every leading separator removed.
pub open spec fn strip_leading_slashes(p: Seq<char>) -> Seq<char>
    decreases p.len(),
{
    if p.len() > 0 && p[0] == '/' {
        strip_leading_slashes(p.drop_first())
    } else {
        p
    }
}

/// The suffix of `p` after its last separator (`p` itself if it has none).
pub open spec fn after_last_slash(p: Seq<char>) -> Seq<char>
    decreases p.len(),
{
    if p.len() == 0 {
        p
    } else if p.last() == '/' {
        Seq::empty()
    } else {
        after_last_slash(p.drop_last()).push(p.last())
    }
}

/// The final component of `p`, ignoring trailing separators, as the
/// standard library's file-name accessor computes it for ordinary paths.
pub open spec fn base_name_spec(p: Seq<char>) -> Seq<char> {
    after_last_slash(strip_trailing_slashes(p))
}

/// `p` with its trailing run of non-separator characters removed.
pub open spec fn drop_last_component(p: Seq<char>) -> Seq<char>
    decreases p.len(),
{
    if p.len() > 0 && p.last() != '/' {
        drop_last_component(p.drop_last())
    } else {
        p
    }
}

/// The parent directory of `p`, as the standard library's `parent` computes
/// it: `None` for an empty path and for the root, the empty path for a bare
/// file name, and the path up to (but not including) the last separator
/// otherwise, with the root collapsing to `/`.
pub open spec fn parent_spec(p: Seq<char>) -> Option<Seq<char>> {
    let s = strip_trailing_slashes(p);
    if s.len() == 0 {
        None
    } else {
        let q = drop_last_component(s);
        if q.len() == 0 {
            Some(Seq::empty())
        } else {
            let r = strip_trailing_slashes(q);
            if r.len() == 0 {
                Some(seq!['/'])
            } else {
                Some(r)
            }
        }
    }
}

/// The path of `p` relative to a root whose text is the first `root_len`
/// characters of `p`: the suffix past the root, with leading separators
/// removed.
pub open spec fn rel_of_spec(p: Seq<char>, root_len: int) -> Seq<char> {
    if 0 <= root_len <= p.len() {
        strip_leading_slashes(p.skip(root_len))
    } else {
        Seq::empty()
    }
}

/// Law: joining never escapes the base — the base path is a literal
/// prefix of every join.
pub proof fn lemma_join_keeps_base_prefix(base: Seq<char>, name: Seq<char>)
    ensures
        join_spec(base, name).len() >= base.len(),
        join_spec(base, name).subrange(0, base.len() as int) == base,
{
    if base.len() == 0 {
        assert(join_spec(base, name).subrange(0, 0) =~= base);
    } else if base.last() == '/' {
        assert((base + name).subrange(0, base.len() as int) =~= base);
    } else {
        assert((base + seq!['/'] + name).subrange(0, base.len() as int) =~= base);
    }
}

proof fn lemma_strip_trailing_len(p: Seq<char>)
    ensures
        strip_trailing_slashes(p).len() <= p.len(),
    decreases p.len(),
{
    if p.len() > 0 && p.last() == '/' {
        lemma_strip_trailing_len(p.drop_last());
    }
}

proof fn lemma_drop_last_component_len(p: Seq<char>)
    ensures
        drop_last_component(p).len() <= p.len(),
        p.len() > 0 && p.last() != '/' ==> drop_last_component(p).len() < p.len(),
    decreases p.len(),
{
    if p.len() > 0 && p.last() != '/' {
        lemma_drop_last_component_len(p.drop_last());
    }
}

/// Joins `base` and `name` with a single separator, as the standard
/// library's path join does for a relative `name`.
pub fn join_path(base: &str, name: &str) -> (r: String)
    ensures
        r@ == join_spec(base@, name@),
{
    let blen = base.unicode_len();
    if blen == 0 {
        return name.to_owned();
    }
    let mut r = base.to_owned();
    if base.get_char(blen - 1) != '/' {
        proof {
            reveal_strlit("/");
            assert("/"@ =~= seq!['/']);
        }
        r.append("/");
    }
    r.append(name);
    proof {
        assert(r@ =~= join_spec(base@, name@));
    }
    r
}

/// The final component of `p`, ignoring trailing separators.
pub fn base_name(p: &str) -> (r: String)
    ensures
        r@ == base_name_spec(p@),
{
    let n = p.unicode_len();
    proof {
        assert(p@.take(n as int) =~= p@);
    }
    let mut end: usize = n;
    while end > 0 && p.get_char(end - 1) == '/'
        invariant
            end <= n,
            n == p@.len(),
            strip_trailing_slashes(p@) == strip_trailing_slashes(p@.take(end as int)),
        decreases end,
    {
        proof {
            assert(p@.take(end as int).drop_last() =~= p@.take(end as int - 1));
        }
        end = end - 1;
    }
    proof {
        assert(strip_trailing_slashes(p@.take(end as int)) == p@.take(end as int));
    }
    let mut start: usize = end;
    while start > 0 && p.get_char(start - 1) != '/'
        invariant
            start <= end <= n,
            n == p@.len(),
            after_last_slash(p@.take(end as int)) =~= after_last_slash(p@.take(start as int))
                + p@.subrange(start as int, end as int),
        decreases start,
    {
        proof {
            assert(p@.take(start as int).drop_last() =~= p@.take(start as int - 1));
            assert(after_last_slash(p@.take(start as int)) =~= after_last_slash(
                p@.take(start as int - 1),
            ).push(p@[start as int - 1]));
            assert(after_last_slash(p@.take(start as int - 1)).push(p@[start as int - 1])
                + p@.subrange(start as int, end as int) =~= after_last_slash(
                p@.take(start as int - 1),
            ) + p@.subrange(start as int - 1, end as int));
        }
        start = start - 1;
    }
    proof {
        assert(after_last_slash(p@.take(start as int)) =~= Seq::<char>::empty());
        assert(base_name_spec(p@) =~= p@.subrange(start as int, end as int));
    }
    p.substring_char(start, end).to_owned()
}

/// The parent directory of `p`, or `None` for an empty or root path.  A
/// returned parent is always strictly shorter than `p`, which bounds the
/// ancestor chain.
pub fn parent_of(p: &str) -> (r: Option<String>)
    ensures
        r is Some <==> parent_spec(p@) is Some,
        r is Some ==> r->0@ == parent_spec(p@)->0 && r->0@.len() < p@.len(),
{
    let n = p.unicode_len();
    proof {
        assert(p@.take(n as int) =~= p@);
    }
    let mut end: usize = n;
    while end > 0 && p.get_char(end - 1) == '/'
        invariant
            end <= n,
            n == p@.len(),
            strip_trailing_slashes(p@) == strip_trailing_slashes(p@.take(end as int)),
        decreases end,
    {
        proof {
            assert(p@.take(end as int).drop_last() =~= p@.take(end as int - 1));
        }
        end = end - 1;
    }
    proof {
        assert(strip_trailing_slashes(p@.take(end as int)) == p@.take(end as int));
    }
    if end == 0 {
        proof {
            assert(strip_trailing_slashes(p@) =~= Seq::<char>::empty());
        }
        return None;
    }
    let mut start: usize = end;
    while start > 0 && p.get_char(start - 1) != '/'
        invariant
            start <= end <= n,
            n == p@.len(),
            drop_last_component(p@.take(end as int)) == drop_last_component(p@.take(start as int)),
        decreases start,
    {
        proof {
            assert(p@.take(start as int).drop_last() =~= p@.take(start as int - 1));
        }
        start = start - 1;
    }
    proof {
        assert(drop_last_component(p@.take(start as int)) == p@.take(start as int));
        lemma_drop_last_component_len(p@.take(end as int));
    }
    if start == 0 {
        proof {
            assert(drop_last_component(strip_trailing_slashes(p@)) =~= Seq::<char>::empty());
        }
        return Some(String::new());
    }
    let mut end2: usize = start;
    while end2 > 0 && p.get_char(end2 - 1) == '/'
        invariant
            end2 <= start,
            n == p@.len(),
            start <= n,
            strip_trailing_slashes(p@.take(start as int)) == strip_trailing_slashes(
                p@.take(end2 as int),
            ),
        decreases end2,
    {
        proof {
            assert(p@.take(end2 as int).drop_last() =~= p@.take(end2 as int - 1));
        }
        end2 = end2 - 1;
    }
    proof {
        assert(strip_trailing_slashes(p@.take(end2 as int)) == p@.take(end2 as int));
        lemma_strip_trailing_len(p@.take(start as int));
    }
    if end2 == 0 {
        proof {
            reveal_strlit("/");
            assert("/"@ =~= seq!['/']);
        }
        return Some("/".to_owned());
    }
    Some(p.substring_char(0, end2).to_owned())
}

/// The path of `p` relative to a root that is its first `root_len`
/// characters: the remaining suffix with leading separators removed.
pub fn relative_to(p: &str, root_len: usize) -> (r: String)
    requires
        root_len <= p@.len(),
    ensures
        r@ == rel_of_spec(p@, root_len as int),
{
    let n = p.unicode_len();
    let mut i: usize = root_len;
    while i < n && p.get_char(i) == '/'
        invariant
            root_len <= i <= n,
            n == p@.len(),
            strip_leading_slashes(p@.skip(root_len as int)) == strip_leading_slashes(
                p@.skip(i as int),
            ),
        decreases n - i,
    {
        proof {
            assert(p@.skip(i as int).drop_first() =~= p@.skip(i as int + 1));
        }
        i = i + 1;
    }
    proof {
        assert(strip_leading_slashes(p@.skip(i as int)) == p@.skip(i as int));
        assert(p@.skip(i as int) =~= p@.subrange(i as int, n as int));
    }
    p.substring_char(i, n).to_owned()
}

} // verus!
