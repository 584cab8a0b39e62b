use vstd::prelude::*;
use vstd::seq_lib::*;
use vstd::string::*;

verus! {

/// View of an optional id segment: an absent segment is the empty segment.
pub open spec fn opt_str_view(v: Option<String>) -> Seq<char> {
    match v {
        Some(s) => s@,
        None => Seq::<char>::empty(),
    }
}

/// Holds when a segment can be embedded in a '/'-joined id without
/// disturbing segment boundaries.
pub open spec fn slash_free(s: Seq<char>) -> bool {
    forall|i: int| 0 <= i < s.len() ==> s[i] != '/'
}

/// The id of a resource of kind `kind`: `{kind}/{name}/{variant}`.
pub open spec fn spec_resource_id(kind: Seq<char>, name: Seq<char>, variant: Seq<char>) -> Seq<
    char,
> {
    kind + seq!['/'] + name + seq!['/'] + variant
}

/// Holds when an id has at least two '/' separators, so that a name
/// segment can be extracted from it.
pub open spec fn two_slashes(id: Seq<char>) -> bool {
    exists|i: int, j: int| 0 <= i < j < id.len() && id[i] == '/' && id[j] == '/'
}

/// The segment between the first and the last '/' of an id.
pub open spec fn spec_name_in_id(id: Seq<char>) -> Seq<char>
    recommends
        two_slashes(id),
{
    let first = id.index_of_first('/').unwrap();
    let last = id.index_of_last('/').unwrap();
    id.subrange(first + 1, last)
}

/// The second-to-last segment of an id: everything after the last '/'
/// once the final segment has been dropped.
pub open spec fn spec_name_before_last(id: Seq<char>) -> Seq<char>
    recommends
        two_slashes(id),
{
    let last = id.index_of_last('/').unwrap();
    let head = id.subrange(0, last);
    head.subrange(head.index_of_last('/').unwrap() + 1, head.len() as int)
}

/// View-level counterpart of [`opt_str_view`].
pub open spec fn opt_view(v: Option<Seq<char>>) -> Seq<char> {
    match v {
        Some(s) => s,
        None => Seq::<char>::empty(),
    }
}

/// Round trip of the id scheme: for segments free of '/', the name segment
/// extracted from `{kind}/{name}/{variant}` is the original name.
pub proof fn lemma_name_in_resource_id(kind: Seq<char>, name: Seq<char>, variant: Seq<char>)
    requires
        slash_free(kind),
        slash_free(name),
        slash_free(variant),
    ensures
        two_slashes(spec_resource_id(kind, name, variant)),
        spec_name_in_id(spec_resource_id(kind, name, variant)) == name,
{
    let id = spec_resource_id(kind, name, variant);
    let f = kind.len() as int;
    let l = kind.len() + 1 + name.len();
    assert(id[f] == '/');
    assert(id[l as int] == '/');
    assert(two_slashes(id));
    id.index_of_first_ensures('/');
    id.index_of_last_ensures('/');
    assert(id.contains('/')) by {
        assert(id[f] == '/');
    }
    let f0 = id.index_of_first('/').unwrap();
    let l0 = id.index_of_last('/').unwrap();
    if f0 < f {
        assert(id[f0] == kind[f0]);
        assert(false);
    }
    if f0 > f {
        assert(false);
    }
    if l0 < l {
        assert(false);
    }
    if l0 > l {
        assert(id[l0] == variant[l0 - (l + 1)]);
        assert(false);
    }
    assert(id.subrange(f0 + 1, l0) =~= name);
}

/// Round trip of the trailing-segment extraction: for a final pair of
/// segments free of '/', the second-to-last segment of
/// `{prefix}/{name}/{variant}` is `name`, whatever the prefix holds.
pub proof fn lemma_name_before_last_in_id(prefix: Seq<char>, name: Seq<char>, variant: Seq<char>)
    requires
        slash_free(name),
        slash_free(variant),
    ensures
        two_slashes(spec_resource_id(prefix, name, variant)),
        spec_name_before_last(spec_resource_id(prefix, name, variant)) == name,
{
    let id = spec_resource_id(prefix, name, variant);
    let m = prefix.len() as int;
    let l = prefix.len() + 1 + name.len();
    assert(id[m] == '/');
    assert(id[l as int] == '/');
    assert(two_slashes(id));
    id.index_of_last_ensures('/');
    assert(id.contains('/')) by {
        assert(id[l as int] == '/');
    }
    let l0 = id.index_of_last('/').unwrap();
    if l0 < l {
        assert(false);
    }
    if l0 > l {
        assert(id[l0] == variant[l0 - (l + 1)]);
        assert(false);
    }
    let head = id.subrange(0, l as int);
    head.index_of_last_ensures('/');
    assert(head.contains('/')) by {
        assert(head[m] == id[m]);
        assert(head[m] == '/');
    }
    let h0 = head.index_of_last('/').unwrap();
    if h0 < m {
        assert(head[m] == id[m]);
        assert(false);
    }
    if h0 > m {
        assert(head[h0] == id[h0]);
        assert(id[h0] == name[h0 - (m + 1)]);
        assert(false);
    }
    assert(head.subrange(h0 + 1, head.len() as int) =~= name);
}

/// Builds `{kind}/{name}/{variant}`, the deterministic id of a resource.
pub fn make_resource_id(kind: &str, name: &str, variant: &Option<String>) -> (r: String)
    ensures
        r@ == spec_resource_id(kind@, name@, opt_str_view(*variant)),
{
    let mut s = String::from_str(kind);
    s.append("/");
    s.append(name);
    s.append("/");
    match variant {
        Some(v) => s.append(v.as_str()),
        None => (),
    }
    proof {
        reveal_strlit("/");
        assert(s@ =~= spec_resource_id(kind@, name@, opt_str_view(*variant)));
    }
    s
}

/// Index of the first '/' in `id`, by linear scan.
fn find_first_slash(id: &str) -> (f: usize)
    requires
        two_slashes(id@),
    ensures
        id@.index_of_first('/') == Some(f as int),
{
    let ghost (w, w2): (int, int) = choose|i: int, j: int|
        0 <= i < j < id@.len() && id@[i] == '/' && id@[j] == '/';
    let len = id.unicode_len();
    let mut i: usize = 0;
    while id.get_char(i) != '/'
        invariant
            two_slashes(id@),
            0 <= w < id@.len(),
            id@[w] == '/',
            len == id@.len(),
            0 <= i <= w,
            forall|j: int| 0 <= j < i ==> id@[j] != '/',
        decreases id@.len() - i,
    {
        i = i + 1;
        proof {
            if i > w {
                assert(id@[w] == '/');
                assert(false);
            }
        }
    }
    proof {
        id@.index_of_first_ensures('/');
        let f0 = id@.index_of_first('/').unwrap();
        if f0 < i {
            assert(id@[f0] != '/');
        }
        if f0 > i {
            assert(id@[i as int] != '/');
        }
    }
    i
}

/// Index of the last '/' in `id.subrange(0, hi)`, by linear scan downward.
fn find_last_slash_before(id: &str, hi: usize) -> (l: usize)
    requires
        hi <= id@.len(),
        exists|i: int| 0 <= i < hi && id@[i] == '/',
    ensures
        id@.subrange(0, hi as int).index_of_last('/') == Some(l as int),
        l < hi,
{
    let ghost s = id@.subrange(0, hi as int);
    let ghost w: int = choose|i: int| 0 <= i < hi && id@[i] == '/';
    let mut i: usize = hi - 1;
    while id.get_char(i) != '/'
        invariant
            s == id@.subrange(0, hi as int),
            hi <= id@.len(),
            0 <= w <= i < hi,
            id@[w] == '/',
            forall|j: int| i < j < hi ==> id@[j] != '/',
        decreases i,
    {
        proof {
            if i <= w {
                assert(id@[w] == '/');
                assert(false);
            }
        }
        i = i - 1;
    }
    proof {
        s.index_of_last_ensures('/');
        assert(s.contains('/')) by {
            assert(s[w] == id@[w]);
        }
        let l0 = s.index_of_last('/').unwrap();
        assert(s[l0] == id@[l0]);
        if l0 < i {
            assert(s[i as int] == id@[i as int]);
            assert(s[i as int] != '/');
        }
        if l0 > i {
            assert(id@[l0] != '/');
        }
    }
    i
}

/// Extracts the name segment of a `{kind}/{name}/{variant}` id: the text
/// between the first and the last '/'.
pub fn id_to_name(id: &str) -> (name: String)
    requires
        two_slashes(id@),
    ensures
        name@ == spec_name_in_id(id@),
{
    let len = id.unicode_len();
    let f = find_first_slash(id);
    proof {
        id@.index_of_first_ensures('/');
        id@.index_of_last_ensures('/');
        let (i, j) = choose|i: int, j: int|
            0 <= i < j < id@.len() && id@[i] == '/' && id@[j] == '/';
        let l0 = id@.index_of_last('/').unwrap();
        assert(id@.contains('/')) by {
            assert(id@[i] == '/');
        }
        if l0 <= f {
            assert(id@[j] == '/');
            assert(f <= i);
            assert(false);
        }
        assert(id@.subrange(0, len as int) == id@);
    }
    let l = find_last_slash_before(id, len);
    proof {
        assert(id@.subrange(0, len as int) =~= id@);
    }
    let part = id.substring_char(f + 1, l);
    String::from_str(part)
}

/// Extracts the second-to-last segment of an id: the segment before the
/// trailing (possibly empty) one.  For a field id
/// `Field/{entityName}/{name}/{variant}` this is the field's name; for an
/// entity id `Entity/{name}/{variant}` it is the entity's name.
pub fn id_to_name_before_last(id: &str) -> (name: String)
    requires
        two_slashes(id@),
    ensures
        name@ == spec_name_before_last(id@),
{
    let len = id.unicode_len();
    proof {
        let (i, j) = choose|i: int, j: int|
            0 <= i < j < id@.len() && id@[i] == '/' && id@[j] == '/';
        assert(id@[i] == '/');
        assert(id@.subrange(0, len as int) =~= id@);
    }
    let l = find_last_slash_before(id, len);
    proof {
        let s = id@.subrange(0, len as int);
        assert(s =~= id@);
        s.index_of_last_ensures('/');
        id@.index_of_last_ensures('/');
        let (i, j) = choose|i: int, j: int|
            0 <= i < j < id@.len() && id@[i] == '/' && id@[j] == '/';
        assert(id@.contains('/')) by {
            assert(id@[i] == '/');
        }
        // The last slash leaves an earlier slash strictly before it.
        if !(exists|k: int| 0 <= k < l && id@[k] == '/') {
            assert(id@[i] == '/' && id@[j] == '/' && i < j);
            assert(j <= l);
            assert(i < l);
            assert(false);
        }
    }
    let l2 = find_last_slash_before(id, l);
    let part = id.substring_char(l2 + 1, l);
    proof {
        let last = id@.index_of_last('/').unwrap();
        id@.index_of_last_ensures('/');
        assert(id@.subrange(0, id@.len() as int) =~= id@);
        assert(last == l);
        let head = id@.subrange(0, l as int);
        assert(part@ =~= spec_name_before_last(id@));
    }
    String::from_str(part)
}

} // verus!
