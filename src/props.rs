//! Properties of a calendar component and lookup by name.
use vstd::prelude::*;

verus! {

/// One `NAME;PARAM=V1,V2:VALUE` property of a calendar component.
#[derive(Debug, PartialEq, Eq)]
pub struct Property {
    pub name: String,
    pub params: Option<Vec<(String, Vec<String>)>>,
    pub value: Option<String>,
}

/// Index of the first property of `props` whose name is `name`, if any.
pub open spec fn first_named(props: Seq<Property>, name: Seq<char>) -> Option<int>
    decreases props.len(),
{
    if props.len() == 0 {
        None
    } else if props.last().name@ == name && first_named(props.drop_last(), name) is None {
        Some(props.len() - 1)
    } else {
        first_named(props.drop_last(), name)
    }
}

/// The value of the first property named `name`; absent when there is no such
/// property or it has no value.
pub open spec fn named_value(props: Seq<Property>, name: Seq<char>) -> Option<Seq<char>> {
    match first_named(props, name) {
        Some(i) => match props[i].value {
            Some(v) => Some(v@),
            None => None,
        },
        None => None,
    }
}

/// `parts` with `sep` between each two neighbours.
pub open spec fn join_with(parts: Seq<Seq<char>>, sep: Seq<char>) -> Seq<char>
    decreases parts.len(),
{
    if parts.len() == 0 {
        Seq::empty()
    } else if parts.len() == 1 {
        parts[0]
    } else {
        join_with(parts.drop_last(), sep) + sep + parts.last()
    }
}

pub open spec fn views_of(v: Seq<String>) -> Seq<Seq<char>> {
    Seq::new(v.len(), |i: int| v[i]@)
}

proof fn lemma_first_named_prefix(props: Seq<Property>, name: Seq<char>, i: int)
    requires
        0 <= i < props.len(),
    ensures
        first_named(props.take(i + 1), name) == (match first_named(props.take(i), name) {
            Some(j) => Some(j),
            None => if props[i].name@ == name { Some(i) } else { None },
        }),
{
    assert(props.take(i + 1).drop_last() =~= props.take(i));
}

/// Position of the first property of `props` named `name`.
pub fn find_property(props: &Vec<Property>, name: &str) -> (r: Option<usize>)
    ensures
        r matches Some(i) ==> i < props.len(),
        r matches Some(i) ==> first_named(props@, name@) == Some(i as int),
        r is None <==> first_named(props@, name@) is None,
{
    let target = String::from_str(name);
    let mut i: usize = 0;
    while i < props.len()
        invariant
            i <= props.len(),
            target@ == name@,
            first_named(props@.take(i as int), name@) is None,
        decreases props.len() - i,
    {
        proof {
            lemma_first_named_prefix(props@, name@, i as int);
        }
        if props[i].name.eq(&target) {
            assert(props@.take(props.len() as int) =~= props@);
            proof {
                lemma_first_named_stable(props@, name@, i as int + 1);
            }
            return Some(i);
        }
        i = i + 1;
    }
    assert(props@.take(props.len() as int) =~= props@);
    None
}

proof fn lemma_first_named_stable(props: Seq<Property>, name: Seq<char>, k: int)
    requires
        0 <= k <= props.len(),
        first_named(props.take(k), name) is Some,
    ensures
        first_named(props, name) == first_named(props.take(k), name),
    decreases props.len() - k,
{
    if k < props.len() {
        lemma_first_named_prefix(props, name, k);
        lemma_first_named_stable(props, name, k + 1);
    } else {
        assert(props.take(k) =~= props);
    }
}

/// Value of the first property named `name`, copied out.
pub fn property_value(props: &Vec<Property>, name: &str) -> (r: Option<String>)
    ensures
        r matches Some(v) ==> named_value(props@, name@) == Some(v@),
        r is None ==> named_value(props@, name@) is None,
{
    match find_property(props, name) {
        Some(i) => match &props[i].value {
            Some(v) => Some(v.clone()),
            None => None,
        },
        None => None,
    }
}

/// `parts` joined with `sep`.
pub fn join_strings(parts: &Vec<String>, sep: &str) -> (r: String)
    ensures
        r@ == join_with(views_of(parts@), sep@),
{
    let mut acc = String::new();
    let mut i: usize = 0;
    while i < parts.len()
        invariant
            i <= parts.len(),
            acc@ == join_with(views_of(parts@.take(i as int)), sep@),
        decreases parts.len() - i,
    {
        assert(views_of(parts@.take(i as int + 1)).drop_last() =~= views_of(parts@.take(i as int)));
        if i > 0 {
            acc.append(sep);
        }
        acc.append(parts[i].as_str());
        i = i + 1;
    }
    assert(parts@.take(parts.len() as int) =~= parts@);
    acc
}

} // verus!
