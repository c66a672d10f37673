//! The native-side state of the foreign execution environment: the module
//! search path the bridge injects directories into.
//!
//! A directory is always injected at the highest-priority position, so a
//! module of the same name that is already resolvable elsewhere is shadowed
//! by the freshly injected one; injecting a directory that is already
//! present leaves the path unchanged, so the path cannot grow without bound
//! across repeated analyses of one module set.
//!
//! The handle stands for an environment that has been brought online
//! exactly once at process start; it must only be touched inside the
//! process-wide execution region of that environment.

use vstd::prelude::*;

verus! {

/// Whether some entry of `path` reads `dir`.
pub open spec fn contains_dir(path: Seq<String>, dir: Seq<char>) -> bool {
    exists|i: int| 0 <= i < path.len() && (#[trigger] path[i])@ == dir
}

/// The bridge's handle on the initialized foreign environment: the ordered
/// module search path it has injected, highest priority first.
pub struct RuntimeHandle {
    search_path: Vec<String>,
}

impl View for RuntimeHandle {
    type V = Seq<String>;

    closed spec fn view(&self) -> Seq<String> {
        self.search_path@
    }
}

impl RuntimeHandle {
    /// A handle for a freshly initialized environment: no directory has
    /// been injected yet.
    pub fn new() -> (r: RuntimeHandle)
        ensures
            r@ == Seq::<String>::empty(),
    {
        RuntimeHandle { search_path: Vec::new() }
    }

    /// The injected directories, highest priority first.
    pub fn search_path(&self) -> (r: &Vec<String>)
        ensures
            r@ == self@,
    {
        &self.search_path
    }

    /// Makes `dir` the highest-priority search path entry, unless an entry
    /// reading the same directory is already present; in that case the path
    /// is left unchanged.
    #[verifier::loop_isolation(false)]
    pub fn prepare_import(&mut self, dir: String)
        ensures
            contains_dir(old(self)@, dir@) ==> final(self)@ == old(self)@,
            !contains_dir(old(self)@, dir@) ==> final(self)@ == old(self)@.insert(0, dir),
            contains_dir(final(self)@, dir@),
    {
        let mut i: usize = 0;
        while i < self.search_path.len()
            invariant
                i <= self.search_path@.len(),
                forall|j: int| 0 <= j < i ==> (#[trigger] self.search_path@[j])@ != dir@,
            decreases self.search_path@.len() - i,
        {
            if self.search_path[i] == dir {
                return ;
            }
            i += 1;
        }
        proof {
            self.search_path@.insert_ensures(0, dir);
        }
        self.search_path.insert(0, dir);
    }
}

/// Law: injecting directory `a` into a path that lacks it, then directory
/// `b` (absent from the result) leaves both present, with `b` ranked before
/// `a`: the last-injected directory wins precedence.
pub proof fn lemma_injection_order(
    p0: Seq<String>,
    a: String,
    b: String,
    p1: Seq<String>,
    p2: Seq<String>,
)
    requires
        !contains_dir(p0, a@),
        p1 == p0.insert(0, a),
        !contains_dir(p1, b@),
        p2 == p1.insert(0, b),
    ensures
        p2.len() == p0.len() + 2,
        p2[0] == b,
        p2[1] == a,
        contains_dir(p2, a@),
        contains_dir(p2, b@),
{
    p0.insert_ensures(0, a);
    p1.insert_ensures(0, b);
    assert(p2[0] == b);
    assert(p2[1] == p1[0]);
    assert(contains_dir(p2, a@)) by {
        assert(0 <= 1 < p2.len() && (p2[1])@ == a@);
    }
    assert(contains_dir(p2, b@)) by {
        assert(0 <= 0 < p2.len() && (p2[0])@ == b@);
    }
}

} // verus!
