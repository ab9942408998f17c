use vstd::prelude::*;
use vstd::string::*;

verus! {

/// The full name of a local branch.
pub open spec fn branch_ref(branch: Seq<char>) -> Seq<char> {
    "refs/heads/"@ + branch
}

/// The refspec that pushes a local branch to the remote branch of the same name.
pub open spec fn same_name_refspec(branch: Seq<char>) -> Seq<char> {
    branch_ref(branch) + ":"@ + branch_ref(branch)
}

/// The reference list as reported to the caller: each name followed by a comma,
/// in the order given.
pub open spec fn joined_names(names: Seq<Seq<char>>) -> Seq<char>
    decreases names.len(),
{
    if names.len() == 0 {
        Seq::empty()
    } else {
        joined_names(names.drop_last()) + names.last() + ","@
    }
}

/// The views of a list of strings.
pub open spec fn string_views(v: Seq<String>) -> Seq<Seq<char>> {
    v.map_values(|s: String| s@)
}

/// Builds `refs/heads/<branch>`.
pub fn branch_ref_name(branch: &str) -> (r: String)
    ensures
        r@ == branch_ref(branch@),
{
    let mut r = String::from_str("refs/heads/");
    r.append(branch);
    r
}

/// Builds `refs/heads/<branch>:refs/heads/<branch>`.
pub fn push_refspec(branch: &str) -> (r: String)
    ensures
        r@ == same_name_refspec(branch@),
{
    let name = branch_ref_name(branch);
    let mut r = name.clone();
    r.append(":");
    r.append(name.as_str());
    r
}

/// Joins reference names into the comma-terminated list handed to the caller.
pub fn join_reference_names(names: &Vec<String>) -> (r: String)
    ensures
        r@ == joined_names(string_views(names@)),
{
    let mut r = String::new();
    let mut i: usize = 0;
    while i < names.len()
        invariant
            i <= names.len(),
            r@ == joined_names(string_views(names@.take(i as int))),
        decreases names.len() - i,
    {
        proof {
            assert(string_views(names@.take(i as int + 1)).drop_last() =~= string_views(
                names@.take(i as int),
            ));
        }
        r.append(names[i].as_str());
        r.append(",");
        i = i + 1;
    }
    proof {
        assert(names@.take(names@.len() as int) =~= names@);
    }
    r
}

/// Listing two runs of names one after the other lists them in one run.
pub proof fn lemma_joined_concat(a: Seq<Seq<char>>, b: Seq<Seq<char>>)
    ensures
        joined_names(a + b) == joined_names(a) + joined_names(b),
    decreases b.len(),
{
    if b.len() == 0 {
        assert(a + b =~= a);
        assert(joined_names(b) =~= Seq::<char>::empty());
        assert(joined_names(a) + joined_names(b) =~= joined_names(a));
    } else {
        lemma_joined_concat(a, b.drop_last());
        assert((a + b).drop_last() =~= a + b.drop_last());
        assert((a + b).last() == b.last());
        assert(joined_names(a + b) =~= joined_names(a) + joined_names(b));
    }
}

/// Every name of the list stands in the joined text, whole and followed by a
/// comma, between the names before it and the names after it.
pub proof fn lemma_joined_lists_each_name(names: Seq<Seq<char>>, i: int)
    requires
        0 <= i < names.len(),
    ensures
        joined_names(names) == joined_names(names.take(i)) + names[i] + ","@ + joined_names(
            names.skip(i + 1),
        ),
{
    let single = seq![names[i]];
    assert(names =~= names.take(i) + single + names.skip(i + 1));
    lemma_joined_concat(names.take(i) + single, names.skip(i + 1));
    lemma_joined_concat(names.take(i), single);
    assert(single.drop_last() =~= Seq::<Seq<char>>::empty());
    assert(joined_names(single.drop_last()) =~= Seq::<char>::empty());
    assert(single.last() == names[i]);
    assert(joined_names(single) =~= names[i] + ","@);
    assert(joined_names(names) =~= joined_names(names.take(i)) + names[i] + ","@ + joined_names(
        names.skip(i + 1),
    ));
}

/// Where the first comma of a text stands, or its length if it has none.
pub open spec fn first_comma(t: Seq<char>) -> int
    decreases t.len(),
{
    if t.len() == 0 {
        0
    } else if t[0] == ',' {
        0
    } else {
        1 + first_comma(t.drop_first())
    }
}

/// A comma-terminated list read back into its names.
pub open spec fn split_names(t: Seq<char>) -> Seq<Seq<char>>
    decreases t.len(),
{
    let k = first_comma(t);
    if t.len() == 0 {
        Seq::empty()
    } else if k < 0 || k >= t.len() {
        seq![t]
    } else {
        seq![t.take(k)] + split_names(t.skip(k + 1))
    }
}

proof fn lemma_first_comma_after_name(n: Seq<char>, rest: Seq<char>)
    requires
        !n.contains(','),
    ensures
        first_comma(n + ","@ + rest) == n.len(),
    decreases n.len(),
{
    reveal_strlit(",");
    if n.len() == 0 {
        assert(n + ","@ + rest =~= ","@ + rest);
    } else {
        assert((n + ","@ + rest).drop_first() =~= n.drop_first() + ","@ + rest);
        assert(!n.drop_first().contains(',')) by {
            if n.drop_first().contains(',') {
                let j = choose|j: int| 0 <= j < n.drop_first().len() && n.drop_first()[j] == ',';
                assert(n[j + 1] == ',');
            }
        }
        assert((n + ","@ + rest)[0] == n[0]);
        assert(n[0] != ',') by {
            if n[0] == ',' {
                assert(n.contains(','));
            }
        }
        lemma_first_comma_after_name(n.drop_first(), rest);
    }
}

/// Reading the joined list back on its commas gives the names, as long as no
/// name holds a comma.
pub proof fn lemma_split_joined(names: Seq<Seq<char>>)
    requires
        forall|i: int| 0 <= i < names.len() ==> !(#[trigger] names[i]).contains(','),
    ensures
        split_names(joined_names(names)) == names,
    decreases names.len(),
{
    reveal_strlit(",");
    if names.len() > 0 {
        let rest = names.drop_first();
        assert(names =~= seq![names[0]] + rest);
        lemma_joined_concat(seq![names[0]], rest);
        assert(seq![names[0]].drop_last() =~= Seq::<Seq<char>>::empty());
        assert(joined_names(seq![names[0]].drop_last()) =~= Seq::<char>::empty());
        assert(joined_names(seq![names[0]]) =~= names[0] + ","@);
        let t = joined_names(names);
        assert(t =~= names[0] + ","@ + joined_names(rest));
        lemma_first_comma_after_name(names[0], joined_names(rest));
        assert(t.take(names[0].len() as int) =~= names[0]);
        assert(t.skip(names[0].len() as int + 1) =~= joined_names(rest));
        assert forall|i: int| 0 <= i < rest.len() implies !(#[trigger] rest[i]).contains(',') by {
            assert(rest[i] == names[i + 1]);
        }
        lemma_split_joined(rest);
        assert(split_names(t) =~= seq![names[0]] + rest);
    } else {
        assert(joined_names(names) =~= Seq::<char>::empty());
        assert(split_names(Seq::<char>::empty()) =~= Seq::<Seq<char>>::empty());
    }
}

} // verus!
