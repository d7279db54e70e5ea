//! The package managers that the installer knows.

use crate::text::texts;
use vstd::prelude::*;

verus! {

broadcast use vstd::string::group_string_axioms;

/// The names of the package managers that are searched for, in order.
pub open spec fn managers_spec() -> Seq<Seq<char>> {
    seq!["apt"@, "yum"@, "dnf"@, "pacman"@, "zypper"@, "brew"@, "yay"@, "paru"@]
}

/// The names among the first `k` of `names` that were found: name `i` was
/// found where `found` says so at place `i`.
pub open spec fn available(names: Seq<Seq<char>>, found: Seq<bool>, k: int) -> Seq<Seq<char>>
    decreases k,
{
    if k <= 0 {
        Seq::empty()
    } else if k - 1 < names.len() && k - 1 < found.len() && found[k - 1] {
        available(names, found, k - 1).push(names[k - 1])
    } else {
        available(names, found, k - 1)
    }
}

/// The names of the package managers that are searched for, in order.
pub fn managers() -> (names: Vec<String>)
    ensures
        texts(names@) == managers_spec(),
{
    let names = vec![
        "apt".to_string(),
        "yum".to_string(),
        "dnf".to_string(),
        "pacman".to_string(),
        "zypper".to_string(),
        "brew".to_string(),
        "yay".to_string(),
        "paru".to_string(),
    ];
    assert(texts(names@) =~= managers_spec());
    names
}

/// The package managers that are available, given for each of
/// [`managers`], in order, whether the search found it.
pub fn detect_package_managers(found: &Vec<bool>) -> (available_managers: Vec<String>)
    ensures
        texts(available_managers@) == available(
            managers_spec(),
            found@,
            managers_spec().len() as int,
        ),
{
    let names = managers();
    let mut available_managers: Vec<String> = Vec::new();
    let mut i: usize = 0;
    assert(texts(available_managers@) =~= Seq::<Seq<char>>::empty());
    while i < names.len()
        invariant
            0 <= i <= names.len(),
            texts(names@) == managers_spec(),
            texts(available_managers@) == available(managers_spec(), found@, i as int),
        decreases names.len() - i,
    {
        assert(texts(names@)[i as int] == names@[i as int]@);
        if i < found.len() && found[i] {
            let ghost so_far = available_managers@;
            let name = names[i].clone();
            available_managers.push(name);
            assert(texts(available_managers@) =~= texts(so_far).push(name@));
        }
        i += 1;
    }
    assert(texts(names@).len() == names@.len());
    available_managers
}

} // verus!
