use vstd::prelude::*;

verus! {

/// The characters of `s` after its last `/`, or all of `s` when it holds none.
pub open spec fn final_component(s: Seq<char>) -> Seq<char>
    decreases s.len(),
{
    if s.len() == 0 {
        s
    } else if s.last() == '/' {
        Seq::empty()
    } else {
        final_component(s.drop_last()).push(s.last())
    }
}

/// A final component that may name a provider: not empty, `.` or `..`.
pub open spec fn is_safe_leaf(c: Seq<char>) -> bool {
    c.len() != 0 && c != seq!['.'] && c != seq!['.', '.']
}

/// The name under which a provider is looked up, or `None` where the name is refused.
pub open spec fn provider_leaf_of(name: Seq<char>) -> Option<Seq<char>> {
    if is_safe_leaf(final_component(name)) {
        Some(final_component(name))
    } else {
        None
    }
}

/// Reduces a provider name to its final path component, refusing one that
/// is empty, `.` or `..`, so that a name cannot reach outside the search
/// directories.
pub fn provider_leaf(name: &str) -> (r: Option<String>)
    ensures
        r matches Some(l) ==> provider_leaf_of(name@) == Some(l@),
        r is None ==> provider_leaf_of(name@) is None,
{
    let n = name.unicode_len();
    let mut start: usize = n;
    assert(name@.subrange(0, n as int) =~= name@);
    assert(name@.subrange(n as int, n as int) =~= Seq::<char>::empty());
    while start > 0 && name.get_char(start - 1) != '/'
        invariant
            start <= n,
            n == name@.len(),
            final_component(name@) == final_component(name@.subrange(0, start as int)) + name@.subrange(start as int, n as int),
        decreases start,
    {
        assert(name@.subrange(0, start as int).drop_last() =~= name@.subrange(0, start - 1));
        assert(name@.subrange(start - 1, n as int) =~= seq![name@[start - 1]] + name@.subrange(start as int, n as int));
        start = start - 1;
    }
    proof {
        if start > 0 {
            assert(final_component(name@.subrange(0, start as int)) =~= Seq::empty());
        } else {
            assert(name@.subrange(0, 0) =~= Seq::<char>::empty());
        }
    }
    let leaf = name.substring_char(start, n);
    assert(leaf@ =~= final_component(name@));
    let len = n - start;
    if len == 0 {
        None
    } else if len == 1 && leaf.get_char(0) == '.' {
        assert(leaf@ =~= seq!['.']);
        None
    } else if len == 2 && leaf.get_char(0) == '.' && leaf.get_char(1) == '.' {
        assert(leaf@ =~= seq!['.', '.']);
        None
    } else {
        assert(leaf@ != seq!['.']) by {
            if len == 1 { assert(leaf@[0] != seq!['.'][0]); }
        }
        assert(leaf@ != seq!['.', '.']) by {
            if len == 2 { assert(leaf@[0] != '.' || leaf@[1] != '.'); }
        }
        Some(String::from_str(leaf))
    }
}

/// A provider name reduces to what follows its last `/`: that part holds no
/// `/`, what precedes it is empty or ends in `/`, and the name is refused
/// exactly where that part is empty, `.` or `..`.
pub proof fn lemma_leaf_is_final_component(name: Seq<char>)
    ensures
        !final_component(name).contains('/'),
        exists|p: Seq<char>|
            name == p + final_component(name) && (p.len() == 0 || p.last() == '/'),
        provider_leaf_of(name) is None <==> !is_safe_leaf(final_component(name)),
        provider_leaf_of(name) matches Some(l) ==> l == final_component(name),
    decreases name.len(),
{
    if name.len() == 0 {
        assert(name == Seq::<char>::empty() + final_component(name));
    } else if name.last() == '/' {
        assert(name == name + final_component(name));
    } else {
        lemma_leaf_is_final_component(name.drop_last());
        let p = choose|p: Seq<char>|
            name.drop_last() == p + final_component(name.drop_last()) && (p.len() == 0
                || p.last() == '/');
        assert(name =~= name.drop_last().push(name.last()));
        assert(final_component(name) == final_component(name.drop_last()).push(name.last()));
        assert((p + final_component(name.drop_last())).push(name.last()) =~= p + final_component(name));
        assert forall|k: int| 0 <= k < final_component(name).len() implies final_component(name)[k] != '/' by {
            if k < final_component(name.drop_last()).len() {
                assert(final_component(name)[k] == final_component(name.drop_last())[k]);
            }
        }
    }
}

/// `name` appended to `dir` as a path: an absolute name stands alone, and a
/// separator is put between the two only where `dir` does not end in one.
pub open spec fn join_path(dir: Seq<char>, name: Seq<char>) -> Seq<char> {
    if name.len() > 0 && name[0] == '/' {
        name
    } else if dir.len() == 0 || dir.last() == '/' {
        dir + name
    } else {
        dir + seq!['/'] + name
    }
}

/// Appends `name` to the directory `dir`.
pub fn join(dir: &str, name: &str) -> (r: String)
    ensures
        r@ == join_path(dir@, name@),
{
    let nl = name.unicode_len();
    if nl > 0 && name.get_char(0) == '/' {
        return String::from_str(name);
    }
    let dl = dir.unicode_len();
    let mut r = String::from_str(dir);
    if dl > 0 && dir.get_char(dl - 1) != '/' {
        proof { reveal_strlit("/"); }
        r.append("/");
    }
    r.append(name);
    r
}

/// Whether `k` is the first position of `found` that holds `true`.
pub open spec fn is_first_hit(found: Seq<bool>, k: int) -> bool {
    &&& 0 <= k < found.len()
    &&& found[k]
    &&& forall|j: int| 0 <= j < k ==> !found[j]
}

/// The first position at which `found` holds `true`, if any.
pub fn first_hit(found: &Vec<bool>) -> (r: Option<usize>)
    ensures
        r matches Some(k) ==> is_first_hit(found@, k as int),
        r is None ==> forall|j: int| 0 <= j < found@.len() ==> !found@[j],
{
    let mut i: usize = 0;
    while i < found.len()
        invariant
            i <= found@.len(),
            forall|j: int| 0 <= j < i ==> !found@[j],
        decreases found@.len() - i,
    {
        if found[i] {
            return Some(i);
        }
        i = i + 1;
    }
    None
}

/// The candidate path of a provider in each directory of a search path, in order.
pub open spec fn candidate_paths(dirs: Seq<Seq<char>>, leaf: Seq<char>) -> Seq<Seq<char>> {
    dirs.map_values(|d: Seq<char>| join_path(d, leaf))
}

/// Forms `<dir>/<leaf>` for each directory of `dirs`, keeping their order.
pub fn candidates(dirs: &Vec<String>, leaf: &str) -> (r: Vec<String>)
    ensures
        r.deep_view() == candidate_paths(dirs.deep_view(), leaf@),
{
    let mut r: Vec<String> = Vec::new();
    let mut i: usize = 0;
    while i < dirs.len()
        invariant
            i <= dirs@.len(),
            r.deep_view() =~= candidate_paths(dirs.deep_view(), leaf@).subrange(0, i as int),
        decreases dirs@.len() - i,
    {
        let c = join(dirs[i].as_str(), leaf);
        let ghost before = r.deep_view();
        r.push(c);
        assert(r.deep_view() =~= before.push(c@));
        assert(dirs.deep_view()[i as int] == dirs@[i as int]@);
        i = i + 1;
    }
    r
}

} // verus!
