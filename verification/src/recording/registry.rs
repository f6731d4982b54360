//! The registry of the types that can be recorded: each under a name of its
//! own.
use vstd::prelude::*;
use vstd::string::StringSliceAdditionalSpecFns;
use vstd::utf8::encode_utf8_decode_utf8;

verus! {

/// What is kept of a type: its name, and what builds the transcoder of its
/// data.
#[verifier::reject_recursive_types(B)]
pub struct TypeInfo<B> {
    /// The name of the type, as a recording shows it.
    pub typename: &'static str,
    /// What builds the transcoder that reads data of the type and writes them
    /// for the recording.
    pub comrec_builder: B,
}

/// The registry of types. No name stands twice.
#[verifier::reject_recursive_types(B)]
pub struct TypeRegistry<B> {
    /// The types, in the order in which they were added.
    pub map: Vec<TypeInfo<B>>,
}

/// Whether two texts are the same.
pub fn str_eq(a: &str, b: &str) -> (r: bool)
    ensures
        r == (a@ == b@),
{
    let x = a.as_bytes();
    let y = b.as_bytes();
    proof {
        encode_utf8_decode_utf8(a@);
        encode_utf8_decode_utf8(b@);
    }
    if x.len() != y.len() {
        return false;
    }
    let mut i: usize = 0;
    while i < x.len()
        invariant
            x@ == a.spec_bytes(),
            y@ == b.spec_bytes(),
            x@.len() == y@.len(),
            i <= x@.len(),
            forall|k: int| 0 <= k < i ==> x@[k] == y@[k],
        decreases x@.len() - i,
    {
        if x[i] != y[i] {
            return false;
        }
        i += 1;
    }
    assert(x@ =~= y@);
    true
}

impl<B> TypeRegistry<B> {
    /// Whether a type is registered under the name.
    pub open spec fn spec_contains(&self, name: Seq<char>) -> bool {
        exists|i: int| 0 <= i < self.map@.len() && (#[trigger] self.map@[i]).typename@ == name
    }

    /// No name stands twice.
    pub open spec fn wf(&self) -> bool {
        forall|i: int, j: int|
            0 <= i < self.map@.len() && 0 <= j < self.map@.len() && i != j
                ==> self.map@[i].typename@ != self.map@[j].typename@
    }

    /// Whether no name of `other` is registered here.
    pub open spec fn spec_disjoint(&self, other: TypeRegistry<B>) -> bool {
        forall|j: int|
            0 <= j < other.map@.len() ==> !self.spec_contains((#[trigger] other.map@[j]).typename@)
    }

    /// Creates an empty type registry.
    pub fn new() -> (r: TypeRegistry<B>)
        ensures
            r.map@.len() == 0,
            r.wf(),
    {
        TypeRegistry { map: Vec::new() }
    }

    /// Finds the type that is registered under the name.
    pub fn position(&self, name: &str) -> (r: Option<usize>)
        ensures
            match r {
                Some(i) => i < self.map@.len() && self.map@[i as int].typename@ == name@,
                None => !self.spec_contains(name@),
            },
    {
        let mut i: usize = 0;
        while i < self.map.len()
            invariant
                i <= self.map@.len(),
                forall|k: int| 0 <= k < i ==> (#[trigger] self.map@[k]).typename@ != name@,
            decreases self.map@.len() - i,
        {
            if str_eq(self.map[i].typename, name) {
                return Some(i);
            }
            i += 1;
        }
        None
    }

    /// Adds a type to the registry, behind the types registered so far. Its
    /// name may not be registered already.
    pub fn add_helper(&mut self, info: TypeInfo<B>)
        requires
            old(self).wf(),
            !old(self).spec_contains(info.typename@),
        ensures
            final(self).wf(),
            final(self).map@ == old(self).map@.push(info),
    {
        self.map.push(info);
        proof {
            assert forall|i: int, j: int|
                0 <= i < self.map@.len() && 0 <= j < self.map@.len() && i
                    != j implies self.map@[i].typename@ != self.map@[j].typename@ by {
                let n = old(self).map@.len() as int;
                if i < n && j < n {
                    assert(self.map@[i] == old(self).map@[i]);
                    assert(self.map@[j] == old(self).map@[j]);
                } else if i < n {
                    assert(self.map@[i] == old(self).map@[i]);
                } else {
                    assert(self.map@[j] == old(self).map@[j]);
                }
            }
        }
    }

    /// Imports another registry into this one: its types are added behind
    /// the types registered here, in their order. No name of the other
    /// registry may be registered here already.
    pub fn import(&mut self, other: TypeRegistry<B>)
        requires
            old(self).wf(),
            other.wf(),
            old(self).spec_disjoint(other),
        ensures
            final(self).wf(),
            final(self).map@ == old(self).map@ + other.map@,
    {
        let mut rest = other.map;
        let ghost all = rest@;
        let ghost mut k: int = 0;
        proof {
            assert(self.map@ =~= old(self).map@ + all.take(0));
            assert(rest@ =~= all.skip(0));
        }
        while rest.len() > 0
            invariant
                self.wf(),
                0 <= k <= all.len(),
                all == other.map@,
                other.wf(),
                old(self).spec_disjoint(other),
                self.map@ == old(self).map@ + all.take(k),
                rest@ == all.skip(k),
            decreases rest@.len(),
        {
            let info = rest.remove(0);
            proof {
                assert(info == all[k]);
                assert(rest@ =~= all.skip(k + 1));
                assert(!self.spec_contains(info.typename@)) by {
                    if self.spec_contains(info.typename@) {
                        let i = choose|i: int|
                            0 <= i < self.map@.len() && (#[trigger] self.map@[i]).typename@
                                == info.typename@;
                        let n = old(self).map@.len() as int;
                        if i < n {
                            assert(self.map@[i] == old(self).map@[i]);
                            assert(old(self).spec_contains(other.map@[k].typename@));
                        } else {
                            assert(self.map@[i] == all[i - n]);
                            assert(other.map@[i - n].typename@ != other.map@[k].typename@);
                        }
                    }
                }
            }
            self.add_helper(info);
            proof {
                assert(self.map@ =~= old(self).map@ + all.take(k + 1));
                k = k + 1;
            }
        }
        proof {
            assert(all.take(k) =~= all);
        }
    }

    /// Retrieves what is registered under the given name, or `None` where
    /// nothing is.
    pub fn info_name(&self, name: &str) -> (r: Option<&TypeInfo<B>>)
        ensures
            r is Some <==> self.spec_contains(name@),
            r is Some ==> r->Some_0.typename@ == name@ && exists|i: int|
                0 <= i < self.map@.len() && #[trigger] self.map@[i] == *r->Some_0,
    {
        match self.position(name) {
            Some(i) => Some(&self.map[i]),
            None => None,
        }
    }
}

} // verus!
