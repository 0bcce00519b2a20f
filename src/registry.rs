use vstd::prelude::*;
use crate::call::{imported_name, imported_name_of};
use crate::error::WasmPluginError;
use crate::import::FnShape;

verus! {

/// The host functions registered for a plugin before it is instantiated:
/// each under the name the guest imports it by, with its calling shape.
/// A name is registered at most once; registering it again replaces its shape.
pub struct ImportTable {
    names: Vec<String>,
    shapes: Vec<FnShape>,
}

impl ImportTable {
    /// The registered names, in the order they were first registered.
    pub closed spec fn names(&self) -> Seq<Seq<char>> {
        self.names@.map_values(|n: String| n@)
    }

    /// The shape registered under each of them.
    pub closed spec fn shapes(&self) -> Seq<FnShape> {
        self.shapes@
    }

    pub closed spec fn wf(&self) -> bool {
        &&& self.names@.len() == self.shapes@.len()
        &&& forall|i: int, j: int|
            0 <= i < j < self.names@.len() ==> (#[trigger] self.names@[i])@ != (#[trigger] self.names@[j])@
    }

    /// Whether `name` is registered, and under which shape.
    pub open spec fn spec_lookup(&self, name: Seq<char>) -> Option<FnShape> {
        if exists|i: int| 0 <= i < self.names().len() && self.names()[i] == name {
            let i = choose|i: int| 0 <= i < self.names().len() && self.names()[i] == name;
            Some(self.shapes()[i])
        } else {
            None
        }
    }

    /// An empty table.
    pub fn new() -> (r: ImportTable)
        ensures
            r.wf(),
            r.names() == Seq::<Seq<char>>::empty(),
    {
        let r = ImportTable { names: Vec::new(), shapes: Vec::new() };
        assert(r.names() =~= Seq::<Seq<char>>::empty());
        r
    }

    fn find(&self, name: &String) -> (r: Option<usize>)
        requires
            self.wf(),
        ensures
            match r {
                Some(i) => i < self.names().len() && self.names()[i as int] == name@,
                None => forall|i: int| 0 <= i < self.names().len() ==> self.names()[i] != name@,
            },
    {
        let mut i: usize = 0;
        while i < self.names.len()
            invariant
                self.wf(),
                i <= self.names@.len(),
                forall|j: int| 0 <= j < i ==> self.names()[j] != name@,
            decreases self.names@.len() - i,
        {
            if self.names[i].eq(name) {
                return Some(i);
            }
            i += 1;
        }
        None
    }

    /// The shape registered under the imported name `name`, if any.
    pub fn lookup(&self, name: &str) -> (r: Option<FnShape>)
        requires
            self.wf(),
        ensures
            r == self.spec_lookup(name@),
    {
        let owned = String::from_str(name);
        match self.find(&owned) {
            Some(i) => {
                proof {
                    let k = choose|k: int| 0 <= k < self.names().len() && self.names()[k] == name@;
                    if k != i {
                        assert(self.names@[k]@ == self.names@[i as int]@);
                    }
                }
                Some(self.shapes[i])
            },
            None => None,
        }
    }

    /// Registers the host function `name` with the given shape, under the
    /// name the guest imports it by. Registering a name again replaces its shape.
    pub fn register(&mut self, name: &str, shape: FnShape)
        requires
            old(self).wf(),
        ensures
            final(self).wf(),
            final(self).spec_lookup(imported_name_of(name@)) == Some(shape),
            forall|n: Seq<char>|
                n != imported_name_of(name@) ==> #[trigger] final(self).spec_lookup(n) == old(self).spec_lookup(n),
    {
        self.provide(imported_name(name), shape);
    }

    /// Registers a function the host itself provides under the exact name
    /// `mangled` (one the guest declares without the import prefix).
    pub fn provide(&mut self, mangled: String, shape: FnShape)
        requires
            old(self).wf(),
        ensures
            final(self).wf(),
            final(self).spec_lookup(mangled@) == Some(shape),
            forall|n: Seq<char>|
                n != mangled@ ==> #[trigger] final(self).spec_lookup(n) == old(self).spec_lookup(n),
    {
        let ghost m = mangled@;
        let ghost old_names = self.names();
        match self.find(&mangled) {
            Some(i) => {
                self.shapes.set(i, shape);
                assert(self.names() == old_names);
                proof {
                    assert forall|n: Seq<char>|
                        n != m implies #[trigger] self.spec_lookup(n) == old(self).spec_lookup(n) by {
                        if exists|k: int| 0 <= k < self.names().len() && self.names()[k] == n {
                            let k = choose|k: int| 0 <= k < self.names().len() && self.names()[k] == n;
                            assert(k != i);
                        }
                    }
                    let k = choose|k: int| 0 <= k < self.names().len() && self.names()[k] == m;
                    if k != i {
                        assert(self.names@[k]@ == self.names@[i as int]@);
                    }
                }
            },
            None => {
                self.names.push(mangled);
                self.shapes.push(shape);
                assert(self.names() =~= old_names.push(m));
                proof {
                    assert forall|a: int, b: int|
                        0 <= a < b < self.names@.len() implies (#[trigger] self.names@[a])@
                            != (#[trigger] self.names@[b])@ by {
                        assert(self.names()[a] == self.names@[a]@);
                        assert(self.names()[b] == self.names@[b]@);
                    }
                    assert forall|n: Seq<char>|
                        n != m implies #[trigger] self.spec_lookup(n) == old(self).spec_lookup(n) by {
                        if exists|k: int| 0 <= k < self.names().len() && self.names()[k] == n {
                            let k = choose|k: int| 0 <= k < self.names().len() && self.names()[k] == n;
                            assert(k < old_names.len());
                            assert(old(self).names()[k] == n);
                        }
                        if exists|k: int| 0 <= k < old(self).names().len() && old(self).names()[k] == n {
                            let k = choose|k: int| 0 <= k < old(self).names().len() && old(self).names()[k] == n;
                            assert(self.names()[k] == n);
                        }
                    }
                    let last = old_names.len() as int;
                    assert(self.names()[last] == m);
                    let k = choose|k: int| 0 <= k < self.names().len() && self.names()[k] == m;
                    if k != last {
                        assert(self.names@[k]@ == self.names@[last]@);
                    }
                }
            },
        }
    }

    /// Checks the imports a module declares before it is instantiated: each
    /// must be registered, else the module cannot be instantiated.
    pub fn check_declared(&self, declared: &Vec<String>) -> (r: Result<(), WasmPluginError>)
        requires
            self.wf(),
        ensures
            r is Ok <==> forall|i: int|
                0 <= i < declared@.len() ==> #[trigger] self.spec_lookup(declared@[i]@) is Some,
            r is Err ==> r == Err::<(), WasmPluginError>(WasmPluginError::WasmerInstantiationError),
    {
        let mut i: usize = 0;
        while i < declared.len()
            invariant
                self.wf(),
                i <= declared@.len(),
                forall|j: int| 0 <= j < i ==> #[trigger] self.spec_lookup(declared@[j]@) is Some,
            decreases declared@.len() - i,
        {
            if self.lookup(declared[i].as_str()).is_none() {
                return Err(WasmPluginError::WasmerInstantiationError);
            }
            i += 1;
        }
        Ok(())
    }
}

} // verus!
