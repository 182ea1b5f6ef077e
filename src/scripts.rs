//! The scripts every document runs on creation, before its own scripts.
use vstd::prelude::*;
use crate::bridge::BRIDGE_BOOTSTRAP;

verus! {

pub open spec fn views(v: Seq<String>) -> Seq<Seq<char>> {
    v.map_values(|s: String| s@)
}

/// The registration order: the bridge bootstrap, then the caller's scripts in
/// the order given.
pub open spec fn injection_order(scripts: Seq<Seq<char>>) -> Seq<Seq<char>> {
    seq![BRIDGE_BOOTSTRAP@] + scripts
}

/// The scripts to register on document creation, in the order in which they
/// are registered and therefore run.
pub fn document_created_scripts(scripts: &Vec<String>) -> (r: Vec<String>)
    ensures
        views(r@) == injection_order(views(scripts@)),
{
    let mut r: Vec<String> = Vec::new();
    r.push(String::from_str(BRIDGE_BOOTSTRAP));
    let mut i: usize = 0;
    while i < scripts.len()
        invariant
            i <= scripts@.len(),
            views(r@) =~= injection_order(views(scripts@.subrange(0, i as int))),
        decreases scripts@.len() - i,
    {
        let ghost before = r@;
        let c = scripts[i].clone();
        r.push(c);
        assert(views(r@) =~= views(before).push(scripts@[i as int]@));
        assert(scripts@.subrange(0, i as int + 1) =~= scripts@.subrange(0, i as int).push(scripts@[i as int]));
        assert(views(scripts@.subrange(0, i as int + 1)) =~= views(scripts@.subrange(0, i as int)).push(scripts@[i as int]@));
        assert(views(r@) =~= injection_order(views(scripts@.subrange(0, i as int + 1))));
        i = i + 1;
    }
    assert(scripts@.subrange(0, scripts@.len() as int) =~= scripts@);
    r
}

/// The bootstrap script runs first, and then each of the caller's scripts,
/// in the order given, with none left out and none added.
pub proof fn lemma_bootstrap_then_scripts_in_order(scripts: Seq<Seq<char>>)
    ensures
        injection_order(scripts).len() == scripts.len() + 1,
        injection_order(scripts)[0] == BRIDGE_BOOTSTRAP@,
        forall|i: int| 0 <= i < scripts.len() ==> #[trigger] injection_order(scripts)[i + 1] == scripts[i],
{
}

} // verus!
