//! Dependency entries and the verified partition of a dependency list.

use vstd::prelude::*;

verus! {

/// One dependency reference reported by the CSS engine, reduced to its url
/// string: either an `@import` of another stylesheet or a `url()` reference
/// inside a declaration value.
pub enum Dep {
    /// The url of an `@import` rule.
    Import(String),
    /// The url of a `url()` reference.
    Url(String),
}

/// The mathematical shape of a dependency entry: the same two variants, over
/// sequences of characters.
pub enum SpecDep {
    /// The url of an `@import` rule.
    Import(Seq<char>),
    /// The url of a `url()` reference.
    Url(Seq<char>),
}

impl View for Dep {
    type V = SpecDep;

    open spec fn view(&self) -> SpecDep {
        match self {
            Dep::Import(u) => SpecDep::Import(u@),
            Dep::Url(u) => SpecDep::Url(u@),
        }
    }
}

/// The view of a dependency list, entry by entry.
pub open spec fn deps_view(deps: Seq<Dep>) -> Seq<SpecDep> {
    deps.map_values(|d: Dep| d@)
}

/// The urls of the `@import` entries of `deps`, in the order of `deps`.
pub open spec fn imports_of(deps: Seq<SpecDep>) -> Seq<Seq<char>>
    decreases deps.len(),
{
    if deps.len() == 0 {
        Seq::empty()
    } else {
        match deps.last() {
            SpecDep::Import(u) => imports_of(deps.drop_last()).push(u),
            SpecDep::Url(_) => imports_of(deps.drop_last()),
        }
    }
}

/// The urls of the `url()` entries of `deps`, in the order of `deps`.
pub open spec fn urls_of(deps: Seq<SpecDep>) -> Seq<Seq<char>>
    decreases deps.len(),
{
    if deps.len() == 0 {
        Seq::empty()
    } else {
        match deps.last() {
            SpecDep::Import(_) => urls_of(deps.drop_last()),
            SpecDep::Url(u) => urls_of(deps.drop_last()).push(u),
        }
    }
}

/// The partition is complete: every entry of `deps` lands in exactly one of
/// the two lists, so no dependency is dropped and none is duplicated across
/// the lists.
pub proof fn lemma_partition_complete(deps: Seq<SpecDep>)
    ensures
        imports_of(deps).len() + urls_of(deps).len() == deps.len(),
    decreases deps.len(),
{
    if deps.len() > 0 {
        lemma_partition_complete(deps.drop_last());
    }
}

/// The partition keeps the relative order of the entries: splitting a
/// concatenation of two lists splits each part and concatenates the results,
/// so within each output list the urls stand in the same relative order as
/// their entries stood in the input.
pub proof fn lemma_partition_append(a: Seq<SpecDep>, b: Seq<SpecDep>)
    ensures
        imports_of(a + b) == imports_of(a) + imports_of(b),
        urls_of(a + b) == urls_of(a) + urls_of(b),
    decreases b.len(),
{
    if b.len() == 0 {
        assert(a + b =~= a);
        assert(imports_of(a) + imports_of(b) =~= imports_of(a));
        assert(urls_of(a) + urls_of(b) =~= urls_of(a));
    } else {
        lemma_partition_append(a, b.drop_last());
        assert((a + b).drop_last() =~= a + b.drop_last());
        assert((a + b).last() == b.last());
        match b.last() {
            SpecDep::Import(u) => {
                assert(imports_of(a) + imports_of(b) =~= (imports_of(a)
                    + imports_of(b.drop_last())).push(u));
                assert(urls_of(a) + urls_of(b) =~= urls_of(a) + urls_of(b.drop_last()));
            },
            SpecDep::Url(u) => {
                assert(urls_of(a) + urls_of(b) =~= (urls_of(a)
                    + urls_of(b.drop_last())).push(u));
                assert(imports_of(a) + imports_of(b) =~= imports_of(a)
                    + imports_of(b.drop_last()));
            },
        }
    }
}

/// A list of one entry splits into the url of that entry, standing alone in
/// the list of its kind, and nothing in the other list. Together with
/// `lemma_partition_append` and the empty case this pins the partition on
/// every list.
pub proof fn lemma_partition_single(d: SpecDep)
    ensures
        (match d {
            SpecDep::Import(u) => imports_of(seq![d]) == seq![u] && urls_of(seq![d])
                == Seq::<Seq<char>>::empty(),
            SpecDep::Url(u) => urls_of(seq![d]) == seq![u] && imports_of(seq![d])
                == Seq::<Seq<char>>::empty(),
        }),
{
    let s = seq![d];
    assert(s.drop_last() =~= Seq::<SpecDep>::empty());
    assert(s.last() == d);
    assert(imports_of(Seq::<SpecDep>::empty()) =~= Seq::<Seq<char>>::empty());
    assert(urls_of(Seq::<SpecDep>::empty()) =~= Seq::<Seq<char>>::empty());
    match d {
        SpecDep::Import(u) => {
            assert(imports_of(s) =~= seq![u]);
            assert(urls_of(s) =~= Seq::<Seq<char>>::empty());
        },
        SpecDep::Url(u) => {
            assert(urls_of(s) =~= seq![u]);
            assert(imports_of(s) =~= Seq::<Seq<char>>::empty());
        },
    }
}

/// Walks a dependency list once, in order, and partitions it: `@import` urls
/// into the first list, `url()` urls into the second, each in the order of
/// `deps`.
pub fn split_deps(deps: &Vec<Dep>) -> (r: (Vec<String>, Vec<String>))
    ensures
        r.0.deep_view() == imports_of(deps_view(deps@)),
        r.1.deep_view() == urls_of(deps_view(deps@)),
{
    let mut imports: Vec<String> = Vec::new();
    let mut urls: Vec<String> = Vec::new();
    let mut i: usize = 0;
    while i < deps.len()
        invariant
            i <= deps.len(),
            imports.deep_view() == imports_of(deps_view(deps@).take(i as int)),
            urls.deep_view() == urls_of(deps_view(deps@).take(i as int)),
        decreases deps.len() - i,
    {
        proof {
            let s = deps_view(deps@);
            assert(s[i as int] == deps@[i as int]@);
            assert(s.take(i as int + 1).drop_last() =~= s.take(i as int));
            assert(s.take(i as int + 1).last() == s[i as int]);
        }
        let ghost prev_imports = imports.deep_view();
        let ghost prev_urls = urls.deep_view();
        match &deps[i] {
            Dep::Import(u) => {
                imports.push(u.clone());
                proof {
                    assert(deps@[i as int]@ == SpecDep::Import(u@));
                    assert(imports.deep_view() =~= prev_imports.push(u@));
                }
            },
            Dep::Url(u) => {
                urls.push(u.clone());
                proof {
                    assert(deps@[i as int]@ == SpecDep::Url(u@));
                    assert(urls.deep_view() =~= prev_urls.push(u@));
                }
            },
        }
        i = i + 1;
    }
    proof {
        assert(deps_view(deps@).take(i as int) =~= deps_view(deps@));
    }
    (imports, urls)
}

} // verus!
