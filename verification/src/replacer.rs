//! The specialisation pass.
//!
//! [`SpecReplacer`] says what the pass computes, as a function on models of
//! syntax trees; [`ReactNativeReplacer`] computes it.

use crate::ast::{
    args_model, expr_model, exprs_model, function_model, member_prop_model, prop_model,
    prop_name_model, props_model, Expr, ExprOrSpread, Function, Ident, Lit, MemberProp, Prop,
    PropName, SpecExpr, SpecExprOrSpread, SpecFunction, SpecIdent, SpecLit, SpecMemberProp,
    SpecProp, SpecPropName,
};
use crate::collect::{Collect, SpecCollect};
use vstd::prelude::*;
use vstd::string::StringExecFns;

verus! {

/// Rank of the `default` branch of a selector: behind every platform of the
/// list, ahead of a key that names no platform.
pub const DEFAULT_RANK: usize = usize::MAX / 2;

/// Rank of a branch whose key is neither a platform of the list nor `default`.
/// Such a branch is never selected.
pub const UNMATCHED_RANK: usize = usize::MAX;

/// The pass: the target platforms, most specific first, the tables of the file
/// and the development flag.
pub struct ReactNativeReplacer<'a> {
    pub platforms: &'a Vec<&'a str>,
    pub collect: &'a Collect,
    pub is_development: bool,
}

/// Model of a [`ReactNativeReplacer`].
pub struct SpecReplacer {
    pub platforms: Seq<Seq<char>>,
    pub collect: SpecCollect,
    pub is_development: bool,
}

impl<'a> View for ReactNativeReplacer<'a> {
    type V = SpecReplacer;

    open spec fn view(&self) -> SpecReplacer {
        SpecReplacer {
            platforms: self.platforms@.map_values(|p: &str| p@),
            collect: self.collect@,
            is_development: self.is_development,
        }
    }
}

/// What the pass does at one node.
#[derive(Debug, PartialEq, Eq)]
pub enum Rewrite {
    /// The node is `Platform.OS`: replace it by the name of the target platform.
    PlatformOs,
    /// The node is a free `__DEV__`: replace it by this literal.
    DevFlag(bool),
    /// The node is a selector call: replace it by the pass's result on the
    /// property with this index of its object literal.
    Branch(usize),
    /// No rule applies to the node itself: keep it, and visit its children.
    Descend,
}

/// Model of a [`Rewrite`].
pub enum SpecRewrite {
    PlatformOs,
    DevFlag(bool),
    Branch(int),
    Descend,
}

impl View for Rewrite {
    type V = SpecRewrite;

    open spec fn view(&self) -> SpecRewrite {
        match self {
            Rewrite::PlatformOs => SpecRewrite::PlatformOs,
            Rewrite::DevFlag(b) => SpecRewrite::DevFlag(*b),
            Rewrite::Branch(i) => SpecRewrite::Branch(*i as int),
            Rewrite::Descend => SpecRewrite::Descend,
        }
    }
}

/// The key of a property that can be a branch of a selector: a key-value entry
/// or a method, with a plain name as its key.
pub open spec fn branch_key(p: SpecProp) -> Option<Seq<char>> {
    match p {
        SpecProp::KeyValue { key: SpecPropName::Ident(name), .. } => Some(name),
        SpecProp::Method { key: SpecPropName::Ident(name), .. } => Some(name),
        _ => None,
    }
}

/// Every property of the object can be a branch.
pub open spec fn all_branches(props: Seq<SpecProp>) -> bool {
    forall|i: int| 0 <= i < props.len() ==> branch_key(#[trigger] props[i]) is Some
}

impl SpecReplacer {
    /// There is a target platform.
    pub open spec fn wf(self) -> bool {
        self.platforms.len() > 0
    }

    /// `e` denotes the export `Platform` of `react-native`.
    pub open spec fn is_platform(self, e: SpecExpr) -> bool {
        self.collect.module_reference(e) == Some(("react-native"@, "Platform"@))
    }

    /// `e` is `Platform.OS`.
    pub open spec fn is_platform_os(self, e: SpecExpr) -> bool {
        match e {
            SpecExpr::Member { obj, prop: SpecMemberProp::Ident(name) } => name == "OS"@
                && self.is_platform(*obj),
            _ => false,
        }
    }

    /// `id` is an occurrence of `__DEV__` that no declaration of the file binds.
    pub open spec fn is_dev_flag(self, id: SpecIdent) -> bool {
        id.sym == "__DEV__"@ && !self.collect.declares(id)
    }

    /// The rank of a branch key; smaller is more specific.
    pub open spec fn rank(self, key: Seq<char>) -> int {
        if key == "default"@ {
            DEFAULT_RANK as int
        } else {
            match self.platforms.index_of_first(key) {
                Some(i) => i,
                None => UNMATCHED_RANK as int,
            }
        }
    }

    /// The rank of a property; one that cannot be a branch is never selected.
    pub open spec fn branch_rank(self, p: SpecProp) -> int {
        match branch_key(p) {
            Some(key) => self.rank(key),
            None => UNMATCHED_RANK as int,
        }
    }

    /// Property `i` is the branch to select: it matches, no property has a
    /// smaller rank, and every property before it has a greater one.
    pub open spec fn wins(self, props: Seq<SpecProp>, i: int) -> bool {
        &&& 0 <= i < props.len()
        &&& self.branch_rank(props[i]) < UNMATCHED_RANK
        &&& forall|j: int|
            0 <= j < props.len() ==> self.branch_rank(props[i]) <= self.branch_rank(
                #[trigger] props[j],
            )
        &&& forall|j: int|
            0 <= j < i ==> self.branch_rank(props[i]) < self.branch_rank(#[trigger] props[j])
    }

    /// The index of the selected branch of a selector object, if it has one:
    /// none where a property cannot be a branch, or where no key matches.
    pub open spec fn selection(self, props: Seq<SpecProp>) -> Option<int> {
        if all_branches(props) && exists|i: int| self.wins(props, i) {
            Some(choose|i: int| self.wins(props, i))
        } else {
            None
        }
    }

    /// The properties of the object that `e` selects from, where `e` is
    /// `Platform.select({ .. })` with the object literal as its only argument.
    pub open spec fn selector_props(self, e: SpecExpr) -> Option<Seq<SpecProp>> {
        match e {
            SpecExpr::Call { callee, args } => match *callee {
                SpecExpr::Member { obj, prop: SpecMemberProp::Ident(name) } => {
                    if name == "select"@ && self.is_platform(*obj) && args.len() == 1
                        && !args[0].spread {
                        match args[0].expr {
                            SpecExpr::Object { props } => Some(props),
                            _ => None,
                        }
                    } else {
                        None
                    }
                },
                _ => None,
            },
            _ => None,
        }
    }

    /// The property that the selector call `e` is specialised to, if any.
    pub open spec fn selected_branch(self, e: SpecExpr) -> Option<SpecProp> {
        match self.selector_props(e) {
            Some(props) => match self.selection(props) {
                Some(i) => Some(props[i]),
                None => None,
            },
            None => None,
        }
    }

    /// Which rule applies to the node `e` itself. The rules look at nodes of
    /// different kinds, so at most one applies.
    pub open spec fn rewrite(self, e: SpecExpr) -> SpecRewrite {
        match e {
            SpecExpr::Ident(id) => if self.is_dev_flag(id) {
                SpecRewrite::DevFlag(self.is_development)
            } else {
                SpecRewrite::Descend
            },
            SpecExpr::Member { .. } => if self.is_platform_os(e) {
                SpecRewrite::PlatformOs
            } else {
                SpecRewrite::Descend
            },
            SpecExpr::Call { .. } => match self.selector_props(e) {
                Some(props) => match self.selection(props) {
                    Some(i) => SpecRewrite::Branch(i),
                    None => SpecRewrite::Descend,
                },
                None => SpecRewrite::Descend,
            },
            _ => SpecRewrite::Descend,
        }
    }

    /// A selected branch is a part of the call it was selected from.
    pub proof fn lemma_selected_branch_is_part(self, e: SpecExpr)
        ensures
            match self.selected_branch(e) {
                Some(p) => decreases_to!(e => p) && branch_key(p) is Some,
                None => true,
            },
    {
        if let Some(props) = self.selector_props(e) {
            if let Some(i) = self.selection(props) {
                assert(self.wins(props, i));
                let args = e->args;
                assert(decreases_to!(e => args));
                assert(decreases_to!(args => args[0]));
                assert(decreases_to!(args[0] => args[0].expr));
                assert(decreases_to!(args[0].expr => props));
                assert(decreases_to!(props => props[i]));
            }
        }
    }

    /// The result of the pass on `e`.
    ///
    /// `Platform.OS` becomes the name of the target platform, a selector call
    /// becomes the result of the pass on its selected branch (a method turns
    /// into an anonymous function), and a free `__DEV__` becomes the
    /// development flag. Every other node keeps its shape, with the pass
    /// applied to its children.
    pub open spec fn fold_expr(self, e: SpecExpr) -> SpecExpr
        decreases e,
    {
        match e {
            SpecExpr::Ident(id) => if self.is_dev_flag(id) {
                SpecExpr::Lit(SpecLit::Bool(self.is_development))
            } else {
                e
            },
            SpecExpr::Lit(_) => e,
            SpecExpr::Member { obj, prop } => if self.is_platform_os(e) {
                SpecExpr::Lit(SpecLit::Str(self.platforms[0]))
            } else {
                SpecExpr::Member {
                    obj: Box::new(self.fold_expr(*obj)),
                    prop: self.fold_member_prop(prop),
                }
            },
            SpecExpr::Call { callee, args } => {
                proof {
                    self.lemma_selected_branch_is_part(e);
                }
                match self.selected_branch(e) {
                    Some(SpecProp::KeyValue { value, .. }) => self.fold_expr(value),
                    Some(SpecProp::Method { function, .. }) => SpecExpr::Fn {
                        ident: None,
                        function: self.fold_function(function),
                    },
                    _ => SpecExpr::Call {
                        callee: Box::new(self.fold_expr(*callee)),
                        args: self.fold_args(args),
                    },
                }
            },
            SpecExpr::Object { props } => SpecExpr::Object { props: self.fold_props(props) },
            SpecExpr::Fn { ident, function } => SpecExpr::Fn {
                ident,
                function: self.fold_function(function),
            },
            SpecExpr::Other { label, children } => SpecExpr::Other {
                label,
                children: self.fold_exprs(children),
            },
        }
    }

    /// The pass on the right-hand side of a member access: a property name
    /// stays as it is, a computed key is an expression like any other.
    pub open spec fn fold_member_prop(self, p: SpecMemberProp) -> SpecMemberProp
        decreases p,
    {
        match p {
            SpecMemberProp::Ident(_) => p,
            SpecMemberProp::Computed(e) => SpecMemberProp::Computed(Box::new(self.fold_expr(*e))),
        }
    }

    pub open spec fn fold_arg(self, a: SpecExprOrSpread) -> SpecExprOrSpread
        decreases a,
    {
        SpecExprOrSpread { spread: a.spread, expr: self.fold_expr(a.expr) }
    }

    pub open spec fn fold_prop_name(self, k: SpecPropName) -> SpecPropName
        decreases k,
    {
        match k {
            SpecPropName::Computed(e) => SpecPropName::Computed(self.fold_expr(e)),
            _ => k,
        }
    }

    pub open spec fn fold_function(self, f: SpecFunction) -> SpecFunction
        decreases f,
    {
        SpecFunction {
            params: self.fold_exprs(f.params),
            body: self.fold_exprs(f.body),
            is_generator: f.is_generator,
            is_async: f.is_async,
        }
    }

    pub open spec fn fold_prop(self, p: SpecProp) -> SpecProp
        decreases p,
    {
        match p {
            SpecProp::Spread(e) => SpecProp::Spread(self.fold_expr(e)),
            SpecProp::Shorthand(_) => p,
            SpecProp::KeyValue { key, value } => SpecProp::KeyValue {
                key: self.fold_prop_name(key),
                value: self.fold_expr(value),
            },
            SpecProp::Assign { name, value } => SpecProp::Assign {
                name,
                value: self.fold_expr(value),
            },
            SpecProp::Getter { key, function } => SpecProp::Getter {
                key: self.fold_prop_name(key),
                function: self.fold_function(function),
            },
            SpecProp::Setter { key, function } => SpecProp::Setter {
                key: self.fold_prop_name(key),
                function: self.fold_function(function),
            },
            SpecProp::Method { key, function } => SpecProp::Method {
                key: self.fold_prop_name(key),
                function: self.fold_function(function),
            },
        }
    }

    pub open spec fn fold_exprs(self, s: Seq<SpecExpr>) -> Seq<SpecExpr>
        decreases s,
    {
        Seq::new(
            s.len(),
            |i: int|
                if 0 <= i < s.len() {
                    self.fold_expr(s[i])
                } else {
                    arbitrary()
                },
        )
    }

    pub open spec fn fold_args(self, s: Seq<SpecExprOrSpread>) -> Seq<SpecExprOrSpread>
        decreases s,
    {
        Seq::new(
            s.len(),
            |i: int|
                if 0 <= i < s.len() {
                    self.fold_arg(s[i])
                } else {
                    arbitrary()
                },
        )
    }

    pub open spec fn fold_props(self, s: Seq<SpecProp>) -> Seq<SpecProp>
        decreases s,
    {
        Seq::new(
            s.len(),
            |i: int|
                if 0 <= i < s.len() {
                    self.fold_prop(s[i])
                } else {
                    arbitrary()
                },
        )
    }

    /// At most one property wins.
    pub proof fn lemma_winner_unique(self, props: Seq<SpecProp>, i: int, j: int)
        requires
            self.wins(props, i),
            self.wins(props, j),
        ensures
            i == j,
    {
    }
}

/// Whether the string is the given word.
fn is_word(s: &String, word: &str) -> (b: bool)
    ensures
        b == (s@ == word@),
{
    let w = String::from_str(word);
    *s == w
}

impl<'a> ReactNativeReplacer<'a> {
    /// Whether `node` denotes the export `Platform` of `react-native`.
    pub fn match_platform(&self, node: &Expr) -> (b: bool)
        ensures
            b == self@.is_platform(node@),
    {
        match self.collect.match_module_reference(node) {
            Some((source, specifier)) => is_word(&source, "react-native") && is_word(
                &specifier,
                "Platform",
            ),
            None => false,
        }
    }

    /// The rank of a branch key: `DEFAULT_RANK` for `default`, else the position
    /// of the key in the list of platforms, else `UNMATCHED_RANK`.
    pub fn rank(&self, key: &String) -> (r: usize)
        ensures
            r as int == self@.rank(key@),
    {
        if is_word(key, "default") {
            return DEFAULT_RANK;
        }
        let mut i: usize = 0;
        while i < self.platforms.len()
            invariant
                i <= self.platforms.len(),
                key@ != "default"@,
                forall|j: int| 0 <= j < i ==> self@.platforms[j] != key@,
            decreases self.platforms.len() - i,
        {
            if is_word(key, self.platforms[i]) {
                proof {
                    let s = self@.platforms;
                    assert(s[i as int] == key@);
                    s.index_of_first_ensures(key@);
                }
                return i;
            }
            i += 1;
        }
        proof {
            self@.platforms.index_of_first_ensures(key@);
        }
        UNMATCHED_RANK
    }

    /// The index of the branch to select among the properties of a selector
    /// object, if it has one.
    pub fn select(&self, props: &Vec<Prop>) -> (r: Option<usize>)
        ensures
            match r {
                Some(i) => self@.selection(props_model(props@)) == Some(i as int),
                None => self@.selection(props_model(props@)) is None,
            },
    {
        let ghost model = props_model(props@);
        let mut best: Option<(usize, usize)> = None;
        let mut i: usize = 0;
        while i < props.len()
            invariant
                i <= props.len(),
                model == props_model(props@),
                forall|j: int| 0 <= j < i ==> branch_key(#[trigger] model[j]) is Some,
                match best {
                    None => i == 0,
                    Some((r, k)) => {
                        &&& k < i
                        &&& r as int == self@.branch_rank(model[k as int])
                        &&& forall|j: int|
                            0 <= j < i ==> r as int <= self@.branch_rank(#[trigger] model[j])
                        &&& forall|j: int|
                            0 <= j < k ==> (r as int) < self@.branch_rank(#[trigger] model[j])
                    },
                },
            decreases props.len() - i,
        {
            assert(model[i as int] == prop_model(props@[i as int]));
            let key: &String = match &props[i] {
                Prop::KeyValue { key, .. } => {
                    assert(model[i as int]->KeyValue_key == prop_name_model(*key));
                    match key {
                        PropName::Ident(name) => name,
                        _ => {
                            assert(branch_key(model[i as int]) is None);
                            return None;
                        },
                    }
                },
                Prop::Method { key, .. } => {
                    assert(model[i as int]->Method_key == prop_name_model(*key));
                    match key {
                        PropName::Ident(name) => name,
                        _ => {
                            assert(branch_key(model[i as int]) is None);
                            return None;
                        },
                    }
                },
                _ => {
                    assert(branch_key(model[i as int]) is None);
                    return None;
                },
            };
            assert(branch_key(model[i as int]) == Some(key@));
            let r = self.rank(key);
            match best {
                Some((b, _)) => {
                    if r < b {
                        best = Some((r, i));
                    }
                },
                None => {
                    best = Some((r, i));
                },
            }
            i += 1;
        }
        match best {
            Some((r, k)) => {
                if r < UNMATCHED_RANK {
                    proof {
                        assert(self@.wins(model, k as int));
                        let c = choose|c: int| self@.wins(model, c);
                        self@.lemma_winner_unique(model, c, k as int);
                    }
                    Some(k)
                } else {
                    assert forall|c: int| !self@.wins(model, c) by {
                        if 0 <= c < model.len() {
                            assert(r as int <= self@.branch_rank(model[c]));
                        }
                    }
                    None
                }
            },
            None => None,
        }
    }

    /// The properties of the object literal that `e` selects from, where `e` is
    /// a selector call.
    fn selector_props<'b>(&self, e: &'b Expr) -> (r: Option<&'b Vec<Prop>>)
        ensures
            match r {
                Some(props) => {
                    &&& self@.selector_props(e@) == Some(props_model(props@))
                    &&& e is Call
                    &&& e->args@.len() == 1
                    &&& e->args@[0].expr == (Expr::Object { props: *props })
                },
                None => self@.selector_props(e@) is None,
            },
    {
        match e {
            Expr::Call { callee, args } => {
                assert(e@ == SpecExpr::Call { callee: Box::new(callee@), args: args_model(args@) });
                match &**callee {
                    Expr::Member { obj, prop } => {
                        assert(callee@ == SpecExpr::Member { obj: Box::new(obj@), prop: prop@ });
                        match prop {
                            MemberProp::Ident(name) => {
                                if is_word(name, "select") && self.match_platform(obj) && args.len()
                                    == 1 && !args[0].spread {
                                    assert(args_model(args@)[0] == args[0]@);
                                    match &args[0].expr {
                                        Expr::Object { props } => Some(props),
                                        _ => None,
                                    }
                                } else {
                                    assert(args.len() == 1 ==> args_model(args@)[0] == args[0]@);
                                    None
                                }
                            },
                            MemberProp::Computed(_) => None,
                        }
                    },
                    _ => None,
                }
            },
            _ => None,
        }
    }

    /// Which rule applies to `node` itself. Only the node's own shape is read:
    /// its kind, what its object denotes, and the kinds and keys of the
    /// properties of a selector's object.
    pub fn rewrite(&self, node: &Expr) -> (r: Rewrite)
        ensures
            r@ == self@.rewrite(node@),
    {
        match node {
            Expr::Ident(id) => {
                if is_word(&id.sym, "__DEV__") && !self.collect.is_declared(id) {
                    Rewrite::DevFlag(self.is_development)
                } else {
                    Rewrite::Descend
                }
            },
            Expr::Member { obj, prop } => {
                assert(node@ == SpecExpr::Member { obj: Box::new(obj@), prop: prop@ });
                let is_os = match prop {
                    MemberProp::Ident(name) => is_word(name, "OS"),
                    MemberProp::Computed(_) => false,
                };
                if is_os && self.match_platform(obj) {
                    Rewrite::PlatformOs
                } else {
                    Rewrite::Descend
                }
            },
            Expr::Call { .. } => {
                assert(node@ is Call);
                match self.selector_props(node) {
                    Some(props) => match self.select(props) {
                        Some(i) => Rewrite::Branch(i),
                        None => Rewrite::Descend,
                    },
                    None => Rewrite::Descend,
                }
            },
            _ => Rewrite::Descend,
        }
    }

    fn fold_node(&self, e: &Expr) -> (out: Expr)
        requires
            self@.wf(),
        ensures
            out@ == self@.fold_expr(e@),
        decreases e,
    {
        match self.rewrite(e) {
            Rewrite::PlatformOs => Expr::Lit(Lit::Str(String::from_str(self.platforms[0]))),
            Rewrite::DevFlag(b) => Expr::Lit(Lit::Bool(b)),
            Rewrite::Branch(i) => {
                let props = match self.selector_props(e) {
                    Some(props) => props,
                    None => unreached(),
                };
                let ghost model = props_model(props@);
                assert(self@.selected_branch(e@) == Some(model[i as int]));
                assert(model[i as int] == props[i as int]@);
                proof {
                    let args = e->args;
                    assert(decreases_to!(e => args));
                    assert(decreases_to!(args => args@[0]));
                    assert(decreases_to!(args@[0] => args@[0].expr));
                    assert(args@[0].expr->props == props);
                    assert(decreases_to!(args@[0].expr => args@[0].expr->props));
                    assert(decreases_to!(props => props@[i as int]));
                }
                match &props[i] {
                    Prop::KeyValue { value, .. } => self.fold_node(value),
                    Prop::Method { function, .. } => Expr::Fn {
                        ident: None,
                        function: self.fold_function(function),
                    },
                    _ => {
                        assert(branch_key(model[i as int]) is None);
                        unreached()
                    },
                }
            },
            Rewrite::Descend => match e {
                Expr::Ident(id) => Expr::Ident(id.clone()),
                Expr::Lit(lit) => Expr::Lit(lit.clone()),
                Expr::Member { obj, prop } => {
                    assert(e@ == SpecExpr::Member { obj: Box::new(obj@), prop: prop@ });
                    let obj = self.fold_node(obj);
                    let prop = self.fold_member_prop(prop);
                    Expr::Member { obj: Box::new(obj), prop }
                },
                Expr::Call { callee, args } => {
                    assert(e@ == SpecExpr::Call {
                        callee: Box::new(callee@),
                        args: args_model(args@),
                    });
                    let callee = self.fold_node(callee);
                    let args = self.fold_args(args);
                    Expr::Call { callee: Box::new(callee), args }
                },
                Expr::Object { props } => Expr::Object { props: self.fold_props(props) },
                Expr::Fn { ident, function } => {
                    let ident = match ident {
                        Some(id) => Some(id.clone()),
                        None => None,
                    };
                    Expr::Fn { ident, function: self.fold_function(function) }
                },
                Expr::Other { label, children } => Expr::Other {
                    label: label.clone(),
                    children: self.fold_nodes(children),
                },
            },
        }
    }

    fn fold_member_prop(&self, p: &MemberProp) -> (out: MemberProp)
        requires
            self@.wf(),
        ensures
            out@ == self@.fold_member_prop(p@),
        decreases p,
    {
        match p {
            MemberProp::Ident(name) => MemberProp::Ident(name.clone()),
            MemberProp::Computed(e) => MemberProp::Computed(Box::new(self.fold_node(e))),
        }
    }

    fn fold_prop_name(&self, k: &PropName) -> (out: PropName)
        requires
            self@.wf(),
        ensures
            out@ == self@.fold_prop_name(k@),
        decreases k,
    {
        match k {
            PropName::Ident(name) => PropName::Ident(name.clone()),
            PropName::Str(s) => PropName::Str(s.clone()),
            PropName::Num(s) => PropName::Num(s.clone()),
            PropName::Computed(e) => PropName::Computed(self.fold_node(e)),
        }
    }

    fn fold_function(&self, f: &Function) -> (out: Function)
        requires
            self@.wf(),
        ensures
            out@ == self@.fold_function(f@),
        decreases f,
    {
        Function {
            params: self.fold_nodes(&f.params),
            body: self.fold_nodes(&f.body),
            is_generator: f.is_generator,
            is_async: f.is_async,
        }
    }

    fn fold_prop(&self, p: &Prop) -> (out: Prop)
        requires
            self@.wf(),
        ensures
            out@ == self@.fold_prop(p@),
        decreases p,
    {
        match p {
            Prop::Spread(e) => Prop::Spread(self.fold_node(e)),
            Prop::Shorthand(id) => Prop::Shorthand(id.clone()),
            Prop::KeyValue { key, value } => Prop::KeyValue {
                key: self.fold_prop_name(key),
                value: self.fold_node(value),
            },
            Prop::Assign { name, value } => Prop::Assign {
                name: name.clone(),
                value: self.fold_node(value),
            },
            Prop::Getter { key, function } => Prop::Getter {
                key: self.fold_prop_name(key),
                function: self.fold_function(function),
            },
            Prop::Setter { key, function } => Prop::Setter {
                key: self.fold_prop_name(key),
                function: self.fold_function(function),
            },
            Prop::Method { key, function } => Prop::Method {
                key: self.fold_prop_name(key),
                function: self.fold_function(function),
            },
        }
    }

    fn fold_nodes(&self, v: &Vec<Expr>) -> (out: Vec<Expr>)
        requires
            self@.wf(),
        ensures
            exprs_model(out@) == self@.fold_exprs(exprs_model(v@)),
        decreases v,
    {
        let mut out: Vec<Expr> = Vec::new();
        let mut i: usize = 0;
        while i < v.len()
            invariant
                self@.wf(),
                i <= v.len(),
                out@.len() == i,
                forall|j: int|
                    0 <= j < i ==> expr_model(#[trigger] out@[j]) == self@.fold_expr(
                        expr_model(v@[j]),
                    ),
            decreases v.len() - i,
        {
            let x = self.fold_node(&v[i]);
            out.push(x);
            i += 1;
        }
        assert(exprs_model(out@) =~= self@.fold_exprs(exprs_model(v@)));
        out
    }

    fn fold_args(&self, v: &Vec<ExprOrSpread>) -> (out: Vec<ExprOrSpread>)
        requires
            self@.wf(),
        ensures
            args_model(out@) == self@.fold_args(args_model(v@)),
        decreases v,
    {
        let mut out: Vec<ExprOrSpread> = Vec::new();
        let mut i: usize = 0;
        while i < v.len()
            invariant
                self@.wf(),
                i <= v.len(),
                out@.len() == i,
                forall|j: int|
                    0 <= j < i ==> (#[trigger] out@[j])@ == self@.fold_arg(v@[j]@),
            decreases v.len() - i,
        {
            let expr = self.fold_node(&v[i].expr);
            out.push(ExprOrSpread { spread: v[i].spread, expr });
            i += 1;
        }
        assert(args_model(out@) =~= self@.fold_args(args_model(v@)));
        out
    }

    fn fold_props(&self, v: &Vec<Prop>) -> (out: Vec<Prop>)
        requires
            self@.wf(),
        ensures
            props_model(out@) == self@.fold_props(props_model(v@)),
        decreases v,
    {
        let mut out: Vec<Prop> = Vec::new();
        let mut i: usize = 0;
        while i < v.len()
            invariant
                self@.wf(),
                i <= v.len(),
                out@.len() == i,
                forall|j: int|
                    0 <= j < i ==> (#[trigger] out@[j])@ == self@.fold_prop(v@[j]@),
            decreases v.len() - i,
        {
            let x = self.fold_prop(&v[i]);
            out.push(x);
            i += 1;
        }
        assert(props_model(out@) =~= self@.fold_props(props_model(v@)));
        out
    }

    /// Runs the pass on `node` and returns the rewritten tree.
    pub fn fold_expr(&mut self, node: Expr) -> (out: Expr)
        requires
            old(self)@.wf(),
        ensures
            out@ == old(self)@.fold_expr(node@),
            final(self)@ == old(self)@,
    {
        self.fold_node(&node)
    }
}

} // verus!
