//! What scope analysis recorded about a file: which identifier occurrences are
//! bound by a declaration of the file, and which stand for an imported symbol.
//!
//! The pass only asks two questions of these tables, [`Collect::is_declared`]
//! and [`Collect::match_module_reference`], and trusts the answers.

use crate::ast::{Expr, Ident, MemberProp, SpecExpr, SpecIdent, SpecMemberProp};
use vstd::prelude::*;

verus! {

/// A binding that stands for a symbol of another module: a named import, the
/// binding of a destructured `require`, or (with no `specifier`) a namespace
/// import, whose members are the module's exports.
#[derive(Debug, PartialEq, Eq)]
pub struct Import {
    pub local: Ident,
    pub source: String,
    pub specifier: Option<String>,
}

/// Model of an [`Import`].
pub struct SpecImport {
    pub local: SpecIdent,
    pub source: Seq<char>,
    pub specifier: Option<Seq<char>>,
}

/// The tables of one file. Where `imports` lists a binding more than once, the
/// first entry counts.
#[derive(Debug, PartialEq, Eq)]
pub struct Collect {
    pub decls: Vec<Ident>,
    pub imports: Vec<Import>,
}

/// Model of a [`Collect`].
pub struct SpecCollect {
    pub decls: Seq<SpecIdent>,
    pub imports: Seq<SpecImport>,
}

impl View for Import {
    type V = SpecImport;

    open spec fn view(&self) -> SpecImport {
        SpecImport {
            local: self.local@,
            source: self.source@,
            specifier: match self.specifier {
                Some(s) => Some(s@),
                None => None,
            },
        }
    }
}

impl View for Collect {
    type V = SpecCollect;

    open spec fn view(&self) -> SpecCollect {
        SpecCollect {
            decls: self.decls@.map_values(|d: Ident| d@),
            imports: self.imports@.map_values(|i: Import| i@),
        }
    }
}

/// The first entry of `imports` whose local binding is `id`.
pub open spec fn find_import(imports: Seq<SpecImport>, id: SpecIdent) -> Option<SpecImport>
    decreases imports.len(),
{
    if imports.len() == 0 {
        None
    } else if imports[0].local == id {
        Some(imports[0])
    } else {
        find_import(imports.drop_first(), id)
    }
}

impl SpecCollect {
    /// This occurrence is bound by a declaration of the file.
    pub open spec fn declares(self, id: SpecIdent) -> bool {
        self.decls.contains(id)
    }

    /// The import that this occurrence is bound to, if any.
    pub open spec fn import_of(self, id: SpecIdent) -> Option<SpecImport> {
        find_import(self.imports, id)
    }

    /// The module and exported name that `e` denotes: an identifier bound to a
    /// named import denotes that export; `ns.name`, with `ns` bound to a
    /// namespace import, denotes the export `name` of that module. Nothing else
    /// denotes an imported symbol.
    pub open spec fn module_reference(self, e: SpecExpr) -> Option<(Seq<char>, Seq<char>)> {
        match e {
            SpecExpr::Ident(id) => match self.import_of(id) {
                Some(imp) => match imp.specifier {
                    Some(name) => Some((imp.source, name)),
                    None => None,
                },
                None => None,
            },
            SpecExpr::Member { obj, prop: SpecMemberProp::Ident(name) } => match *obj {
                SpecExpr::Ident(ns) => match self.import_of(ns) {
                    Some(imp) => match imp.specifier {
                        Some(_) => None,
                        None => Some((imp.source, name)),
                    },
                    None => None,
                },
                _ => None,
            },
            _ => None,
        }
    }
}

impl Ident {
    /// Whether two occurrences have the same name and syntax context.
    pub fn same(&self, other: &Ident) -> (b: bool)
        ensures
            b == (self@ == other@),
    {
        self.ctxt == other.ctxt && self.sym == other.sym
    }
}

impl Collect {
    /// Whether `id` is bound by a declaration of the file.
    pub fn is_declared(&self, id: &Ident) -> (b: bool)
        ensures
            b == self@.declares(id@),
    {
        let mut i: usize = 0;
        while i < self.decls.len()
            invariant
                i <= self.decls.len(),
                forall|j: int| 0 <= j < i ==> self@.decls[j] != id@,
            decreases self.decls.len() - i,
        {
            if self.decls[i].same(id) {
                assert(self@.decls[i as int] == id@);
                return true;
            }
            i += 1;
        }
        false
    }

    /// The first import entry for the binding `id`.
    pub fn import_of(&self, id: &Ident) -> (r: Option<&Import>)
        ensures
            match r {
                Some(imp) => self@.import_of(id@) == Some(imp@),
                None => self@.import_of(id@) is None,
            },
    {
        let mut i: usize = 0;
        assert(self@.imports.skip(0) == self@.imports);
        while i < self.imports.len()
            invariant
                i <= self.imports.len(),
                self@.import_of(id@) == find_import(self@.imports.skip(i as int), id@),
            decreases self.imports.len() - i,
        {
            let ghost rest = self@.imports.skip(i as int);
            assert(rest[0] == self.imports[i as int]@);
            assert(rest.drop_first() == self@.imports.skip(i as int + 1));
            if self.imports[i].local.same(id) {
                return Some(&self.imports[i]);
            }
            i += 1;
        }
        None
    }

    /// What imported symbol `node` denotes, if any.
    pub fn match_module_reference(&self, node: &Expr) -> (r: Option<(String, String)>)
        ensures
            match r {
                Some((source, specifier)) => self@.module_reference(node@) == Some(
                    (source@, specifier@),
                ),
                None => self@.module_reference(node@) is None,
            },
    {
        match node {
            Expr::Ident(id) => match self.import_of(id) {
                Some(imp) => match &imp.specifier {
                    Some(name) => Some((imp.source.clone(), name.clone())),
                    None => None,
                },
                None => None,
            },
            Expr::Member { obj, prop } => {
                assert(node@ == SpecExpr::Member { obj: Box::new(obj@), prop: prop@ });
                match (&**obj, prop) {
                    (Expr::Ident(ns), MemberProp::Ident(name)) => match self.import_of(ns) {
                        Some(imp) => match &imp.specifier {
                            Some(_) => None,
                            None => Some((imp.source.clone(), name.clone())),
                        },
                        None => None,
                    },
                    _ => None,
                }
            },
            _ => None,
        }
    }
}

} // verus!
