//! The environment handed to a command: a strict allowlist.
//!
//! A variable passes only if its name is in the fixed baseline or in the
//! profile's own list, and only if it is set. Nothing else is ever
//! forwarded, and nothing is invented.

use vstd::prelude::*;

verus! {

/// An environment as a mathematical value: name and value of each variable,
/// in the order in which the system lists them.
pub type Variables = Seq<(Seq<char>, Seq<char>)>;

/// The names that may always pass.
pub open spec fn baseline() -> Seq<Seq<char>> {
    seq!["LANG"@, "PATH"@, "TZ"@, "TERM"@]
}

/// Whether a variable called `name` may pass, given the profile's list
/// `allowed`.
pub open spec fn eligible(name: Seq<char>, allowed: Seq<Seq<char>>) -> bool {
    baseline().contains(name) || allowed.contains(name)
}

/// The text `NAME=VALUE` of one variable.
pub open spec fn entry(variable: (Seq<char>, Seq<char>)) -> Seq<char> {
    variable.0 + seq!['='] + variable.1
}

/// The variables of `current` that pass, in the order in which they stand.
pub open spec fn forwarded(current: Variables, allowed: Seq<Seq<char>>) -> Variables {
    current.filter(|variable: (Seq<char>, Seq<char>)| eligible(variable.0, allowed))
}

/// The environment of the command: one `NAME=VALUE` text for each variable
/// that passes.
pub open spec fn child_environment(current: Variables, allowed: Seq<Seq<char>>) -> Seq<Seq<char>> {
    forwarded(current, allowed).map_values(|variable: (Seq<char>, Seq<char>)| entry(variable))
}

/// The names of the variables in `variables`.
pub open spec fn names(variables: Variables) -> Seq<Seq<char>> {
    variables.map_values(|variable: (Seq<char>, Seq<char>)| variable.0)
}

/// The baseline as strings.
pub fn baseline_names() -> (list: Vec<String>)
    ensures
        list.deep_view() == baseline(),
{
    let mut list: Vec<String> = Vec::new();
    list.push(String::from_str("LANG"));
    list.push(String::from_str("PATH"));
    list.push(String::from_str("TZ"));
    list.push(String::from_str("TERM"));
    assert(list.deep_view() =~= baseline());
    list
}

/// Whether `name` occurs in `list`.
pub fn contains_name(list: &Vec<String>, name: &String) -> (found: bool)
    ensures
        found == list.deep_view().contains(name@),
{
    let mut i: usize = 0;
    while i < list.len()
        invariant
            i <= list.len(),
            forall|k: int| 0 <= k < i ==> (#[trigger] list.deep_view()[k]) != name@,
        decreases list.len() - i,
    {
        if list[i] == *name {
            assert(list.deep_view()[i as int] == name@);
            return true;
        }
        assert(list.deep_view()[i as int] == list[i as int]@);
        i += 1;
    }
    false
}

/// The text `NAME=VALUE` for one variable.
pub fn format_entry(name: &String, value: &String) -> (text: String)
    ensures
        text@ == entry((name@, value@)),
{
    let mut text = name.clone();
    text.append("=");
    text.append(value.as_str());
    proof {
        reveal_strlit("=");
        assert("="@ =~= seq!['=']);
    }
    text
}

/// Builds the environment of the command from the launcher's own
/// environment `current` and the profile's list `allowed`.
pub fn filter_environment(current: &Vec<(String, String)>, allowed: &Vec<String>) -> (child: Vec<
    String,
>)
    ensures
        child.deep_view() == child_environment(current.deep_view(), allowed.deep_view()),
{
    let fixed = baseline_names();
    let mut child: Vec<String> = Vec::new();
    let ghost all = current.deep_view();
    let ghost list = allowed.deep_view();
    let ghost passes = |variable: (Seq<char>, Seq<char>)| eligible(variable.0, list);
    let ghost text = |variable: (Seq<char>, Seq<char>)| entry(variable);
    let mut i: usize = 0;
    proof {
        assert(all.take(0) =~= Seq::empty());
        assert(all.take(0).filter(passes) =~= Seq::empty()) by {
            all.take(0).lemma_filter_len(passes);
        }
        assert(child.deep_view() =~= all.take(0).filter(passes).map_values(text));
    }
    while i < current.len()
        invariant
            i <= current.len(),
            all == current.deep_view(),
            list == allowed.deep_view(),
            fixed.deep_view() == baseline(),
            passes == |variable: (Seq<char>, Seq<char>)| eligible(variable.0, list),
            text == |variable: (Seq<char>, Seq<char>)| entry(variable),
            child.deep_view() == all.take(i as int).filter(passes).map_values(text),
        decreases current.len() - i,
    {
        let ghost before = child.deep_view();
        let ghost variable = all[i as int];
        assert(variable == (current[i as int].0@, current[i as int].1@));
        let name = &current[i].0;
        let keep = contains_name(&fixed, name) || contains_name(allowed, name);
        assert(keep == passes(variable));
        if keep {
            child.push(format_entry(name, &current[i].1));
            assert(child.deep_view() =~= before.push(text(variable)));
        }
        proof {
            let seen = all.take(i as int);
            assert(all.take(i + 1) =~= seen.push(variable));
            seen.lemma_filter_push(variable, passes);
            if keep {
                assert(seen.filter(passes).push(variable).map_values(text) =~= seen.filter(
                    passes,
                ).map_values(text).push(text(variable)));
            }
        }
        i += 1;
    }
    assert(all.take(i as int) =~= all);
    child
}

/// Filtering is an intersection: the names that reach the command are
/// exactly the names that are permitted (by the baseline or by the profile)
/// and also set. Each variable that passes is one of the current variables
/// with its value untouched, and each current variable with a permitted name
/// passes.
pub proof fn lemma_forwarded_is_intersection(current: Variables, allowed: Seq<Seq<char>>)
    ensures
        names(forwarded(current, allowed)).to_set() == baseline().to_set().union(
            allowed.to_set(),
        ).intersect(names(current).to_set()),
        forall|i: int|
            0 <= i < forwarded(current, allowed).len() ==> {
                let variable = #[trigger] forwarded(current, allowed)[i];
                current.contains(variable) && eligible(variable.0, allowed)
            },
        forall|j: int|
            0 <= j < current.len() && eligible((#[trigger] current[j]).0, allowed) ==> forwarded(
                current,
                allowed,
            ).contains(current[j]),
{
    let passes = |variable: (Seq<char>, Seq<char>)| eligible(variable.0, allowed);
    let kept = forwarded(current, allowed);
    assert(kept == current.filter(passes));
    assert forall|i: int| 0 <= i < kept.len() implies current.contains(#[trigger] kept[i])
        && eligible(kept[i].0, allowed) by {
        current.lemma_filter_pred(passes, i);
        assert(kept.contains(kept[i]));
        current.lemma_filter_contains_rev(passes, kept[i]);
    }
    assert forall|j: int|
        0 <= j < current.len() && eligible((#[trigger] current[j]).0, allowed) implies kept.contains(
        current[j],
    ) by {
        current.lemma_filter_contains(passes, j);
    }
    let permitted = baseline().to_set().union(allowed.to_set());
    let left = names(kept).to_set();
    let right = permitted.intersect(names(current).to_set());
    assert forall|name: Seq<char>| left.contains(name) implies right.contains(name) by {
        let i = choose|i: int| 0 <= i < names(kept).len() && names(kept)[i] == name;
        assert(kept[i].0 == name);
        assert(current.contains(kept[i]));
        let j = choose|j: int| 0 <= j < current.len() && current[j] == kept[i];
        assert(names(current)[j] == name);
        assert(names(current).contains(name));
    }
    assert forall|name: Seq<char>| right.contains(name) implies left.contains(name) by {
        assert(names(current).contains(name));
        let j = choose|j: int| 0 <= j < names(current).len() && names(current)[j] == name;
        assert(current[j].0 == name);
        assert(eligible(name, allowed));
        assert(kept.contains(current[j]));
        let i = choose|i: int| 0 <= i < kept.len() && kept[i] == current[j];
        assert(names(kept)[i] == name);
        assert(names(kept).contains(name));
    }
    assert(left =~= right);
}

} // verus!
