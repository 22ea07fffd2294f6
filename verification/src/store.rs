//! The module store: the immutable, indexed aggregation of a decoded
//! module's types, function bodies and exports. Built once, then shared
//! read-only by any number of interpreters.

use vstd::prelude::*;

use crate::module::{DecodedModule, Export, ExportDesc, FuncBody, FuncType};

verus! {

/// Indexes a decoded module for O(1) lookup: function id to (type id, body),
/// type id to signature, plus the export list.
#[derive(Debug)]
pub struct Store {
    funcs: Vec<(u32, FuncBody)>,
    exports: Vec<Export>,
    types: Vec<FuncType>,
}

/// Mathematical model of a [`Store`].
pub struct StoreV {
    /// Function table: for each dense function id, its type id and body.
    pub funcs: Seq<(u32, FuncBody)>,
    /// Export table, in declaration order.
    pub exports: Seq<Export>,
    /// Type table, indexed by dense type id.
    pub types: Seq<FuncType>,
}

impl View for Store {
    type V = StoreV;

    closed spec fn view(&self) -> StoreV {
        StoreV { funcs: self.funcs@, exports: self.exports@, types: self.types@ }
    }
}

/// The descriptor of the first export carrying the given name, if any.
pub open spec fn find_export(exports: Seq<Export>, name: Seq<char>) -> Option<ExportDesc>
    decreases exports.len(),
{
    if exports.len() == 0 {
        None
    } else if exports[0].name@ == name {
        Some(exports[0].desc)
    } else {
        find_export(exports.skip(1), name)
    }
}

/// The function id the given export name resolves to: the first export with
/// that name must exist, be a function export, and carry an id inside the
/// function table.
pub open spec fn spec_find_function(s: StoreV, name: Seq<char>) -> Option<u32> {
    match find_export(s.exports, name) {
        Some(ExportDesc::Func(f)) => if f < s.funcs.len() {
            Some(f)
        } else {
            None
        },
        _ => None,
    }
}

impl Store {
    /// Builds the store from a decoded module. All four standard sections
    /// must be present: an incomplete module is a caller-precondition
    /// violation. The function table zips the function section's type ids
    /// with the order-aligned code section bodies, truncating to the shorter
    /// of the two.
    pub fn new(module: DecodedModule) -> (r: Store)
        requires
            module.types is Some,
            module.functions is Some,
            module.code is Some,
            module.exports is Some,
        ensures
            r@.types == module.types.unwrap()@,
            r@.exports == module.exports.unwrap()@,
            r@.funcs.len() == vstd::math::min(
                module.functions.unwrap()@.len() as int,
                module.code.unwrap()@.len() as int,
            ),
            forall|i: int|
                0 <= i < r@.funcs.len() ==> r@.funcs[i] == (
                    module.functions.unwrap()@[i],
                    module.code.unwrap()@[i],
                ),
    {
        let types = module.types.unwrap();
        let functions = module.functions.unwrap();
        let mut code = module.code.unwrap();
        let exports = module.exports.unwrap();

        let ghost code0 = code@;

        let n = if functions.len() < code.len() {
            functions.len()
        } else {
            code.len()
        };

        let mut funcs: Vec<(u32, FuncBody)> = Vec::new();
        let mut i: usize = 0;
        while i < n
            invariant
                i <= n,
                n <= functions@.len(),
                n <= code0.len(),
                code@ == code0.skip(i as int),
                funcs@.len() == i,
                forall|j: int| 0 <= j < i ==> funcs@[j] == (functions@[j], code0[j]),
            decreases n - i,
        {
            let body = code.remove(0);
            assert(body == code0[i as int]);
            funcs.push((functions[i], body));
            proof {
                assert(code@ =~= code0.skip(i + 1));
            }
            i = i + 1;
        }

        Store { funcs, exports, types }
    }

    /// Resolves an export name to a dense function id: the first export with
    /// that name must be a function export whose id lies inside the function
    /// table.
    pub fn find_function(&self, sym_name: &str) -> (r: Option<u32>)
        ensures
            r == spec_find_function(self@, sym_name@),
    {
        let name: String = sym_name.to_owned();
        proof {
            assert(self.exports@.skip(0) =~= self.exports@);
        }
        let mut i: usize = 0;
        while i < self.exports.len()
            invariant
                i <= self.exports@.len(),
                name@ == sym_name@,
                find_export(self.exports@, sym_name@) == find_export(
                    self.exports@.skip(i as int),
                    sym_name@,
                ),
            decreases self.exports@.len() - i,
        {
            assert(self.exports@.skip(i as int)[0] == self.exports@[i as int]);
            if self.exports[i].name == name {
                let desc = &self.exports[i].desc;
                match desc {
                    ExportDesc::Func(f) => {
                        if (*f as usize) < self.funcs.len() {
                            return Some(*f);
                        } else {
                            return None;
                        }
                    },
                    _ => {
                        return None;
                    },
                }
            }
            proof {
                assert(self.exports@.skip(i as int).skip(1) =~= self.exports@.skip(i + 1));
            }
            i = i + 1;
        }
        None
    }

    /// The function table's size.
    pub fn n_funcs(&self) -> (r: usize)
        ensures
            r == self@.funcs.len(),
    {
        self.funcs.len()
    }

    /// The function-table entry of a dense function id, if the id is in
    /// range.
    pub fn func(&self, id: u32) -> (r: Option<&(u32, FuncBody)>)
        ensures
            id < self@.funcs.len() ==> (r matches Some(p) && *p == self@.funcs[id as int]),
            id >= self@.funcs.len() ==> r is None,
    {
        if (id as usize) < self.funcs.len() {
            Some(&self.funcs[id as usize])
        } else {
            None
        }
    }

    /// The signature of a dense type id, if the id is in range.
    pub fn func_type(&self, id: u32) -> (r: Option<&FuncType>)
        ensures
            id < self@.types.len() ==> (r matches Some(t) && *t == self@.types[id as int]),
            id >= self@.types.len() ==> r is None,
    {
        if (id as usize) < self.types.len() {
            Some(&self.types[id as usize])
        } else {
            None
        }
    }
}

} // verus!
