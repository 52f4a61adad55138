//! What holds of the pass on every input.

use crate::ast::{
    SpecExpr, SpecExprOrSpread, SpecFunction, SpecIdent, SpecLit, SpecMemberProp, SpecProp,
    SpecPropName,
};
use crate::replacer::{
    all_branches, branch_key, SpecReplacer, SpecRewrite, DEFAULT_RANK, UNMATCHED_RANK,
};
use vstd::prelude::*;

verus! {

impl SpecReplacer {
    /// `Platform.OS` becomes the name of the first platform of the list.
    pub proof fn lemma_platform_os_is_target(self, obj: SpecExpr)
        requires
            self.wf(),
            self.is_platform(obj),
        ensures
            self.fold_expr(
                SpecExpr::Member { obj: Box::new(obj), prop: SpecMemberProp::Ident("OS"@) },
            ) == SpecExpr::Lit(SpecLit::Str(self.platforms[0])),
    {
    }

    /// A member access on an identifier that a declaration of the file binds,
    /// and that is no import, stays as it is, whatever the names are.
    pub proof fn lemma_shadowed_object_untouched(self, id: SpecIdent, name: Seq<char>)
        requires
            self.collect.declares(id),
            self.collect.import_of(id) is None,
        ensures
            self.fold_expr(
                SpecExpr::Member {
                    obj: Box::new(SpecExpr::Ident(id)),
                    prop: SpecMemberProp::Ident(name),
                },
            ) == (SpecExpr::Member {
                obj: Box::new(SpecExpr::Ident(id)),
                prop: SpecMemberProp::Ident(name),
            }),
    {
        assert(self.fold_expr(SpecExpr::Ident(id)) == SpecExpr::Ident(id));
        assert(self.fold_member_prop(SpecMemberProp::Ident(name)) == SpecMemberProp::Ident(name));
    }

    /// A free `__DEV__` becomes the development flag.
    pub proof fn lemma_free_dev_flag(self, id: SpecIdent)
        requires
            id.sym == "__DEV__"@,
            !self.collect.declares(id),
        ensures
            self.fold_expr(SpecExpr::Ident(id)) == SpecExpr::Lit(
                SpecLit::Bool(self.is_development),
            ),
    {
    }

    /// An identifier that a declaration of the file binds is never replaced,
    /// whatever its name.
    pub proof fn lemma_declared_identifier_untouched(self, id: SpecIdent)
        requires
            self.collect.declares(id),
        ensures
            self.fold_expr(SpecExpr::Ident(id)) == SpecExpr::Ident(id),
    {
    }

    /// The name on the right of a member access is never replaced: unless the
    /// whole access is `Platform.OS`, the pass only descends into the object.
    pub proof fn lemma_property_name_untouched(self, obj: SpecExpr, name: Seq<char>)
        requires
            !(name == "OS"@ && self.is_platform(obj)),
        ensures
            self.fold_expr(
                SpecExpr::Member { obj: Box::new(obj), prop: SpecMemberProp::Ident(name) },
            ) == (SpecExpr::Member {
                obj: Box::new(self.fold_expr(obj)),
                prop: SpecMemberProp::Ident(name),
            }),
    {
        assert(self.fold_member_prop(SpecMemberProp::Ident(name)) == SpecMemberProp::Ident(name));
    }

    /// A property that happens to be named `__DEV__` is not the development flag.
    pub proof fn lemma_dev_named_property_untouched(self, obj: SpecExpr)
        ensures
            self.fold_expr(
                SpecExpr::Member { obj: Box::new(obj), prop: SpecMemberProp::Ident("__DEV__"@) },
            ) == (SpecExpr::Member {
                obj: Box::new(self.fold_expr(obj)),
                prop: SpecMemberProp::Ident("__DEV__"@),
            }),
    {
        reveal_strlit("__DEV__");
        reveal_strlit("OS");
        assert("__DEV__"@.len() != "OS"@.len());
        self.lemma_property_name_untouched(obj, "__DEV__"@);
    }

    /// The rank of a platform is the place of its first occurrence in the list.
    pub proof fn lemma_rank_of_platform(self, i: int)
        requires
            0 <= i < self.platforms.len(),
            self.platforms[i] != "default"@,
            forall|j: int| 0 <= j < i ==> self.platforms[j] != self.platforms[i],
        ensures
            self.rank(self.platforms[i]) == i,
    {
        let key = self.platforms[i];
        self.platforms.index_of_first_ensures(key);
        let k = self.platforms.index_of_first(key).unwrap();
        if i < k {
            assert(self.platforms[i] != key);
        }
    }

    /// Ranks are ordered as the selection needs them: every platform of the
    /// list is ahead of `default`, and `default` is ahead of a key that matches
    /// nothing. The bound on the length of the list holds of every list that
    /// fits in memory.
    pub proof fn lemma_rank_order(self, key: Seq<char>)
        requires
            self.platforms.len() <= DEFAULT_RANK,
        ensures
            self.rank("default"@) == DEFAULT_RANK,
            DEFAULT_RANK < UNMATCHED_RANK,
            key != "default"@ && self.platforms.contains(key) ==> self.rank(key) < DEFAULT_RANK,
            key != "default"@ && !self.platforms.contains(key) ==> self.rank(key)
                == UNMATCHED_RANK,
            0 <= self.rank(key) <= UNMATCHED_RANK,
    {
        self.platforms.index_of_first_ensures(key);
    }

    /// The first index among the first `n` properties whose rank is least.
    proof fn first_least(self, props: Seq<SpecProp>, n: int) -> (k: int)
        requires
            0 < n <= props.len(),
        ensures
            0 <= k < n,
            forall|j: int|
                0 <= j < n ==> self.branch_rank(props[k]) <= self.branch_rank(#[trigger] props[j]),
            forall|j: int|
                0 <= j < k ==> self.branch_rank(props[k]) < self.branch_rank(#[trigger] props[j]),
        decreases n,
    {
        if n == 1 {
            0
        } else {
            let k = self.first_least(props, n - 1);
            if self.branch_rank(props[n - 1]) < self.branch_rank(props[k]) {
                n - 1
            } else {
                k
            }
        }
    }

    /// A selector object is specialised exactly when each of its properties can
    /// be a branch and the key of at least one matches. The selected branch
    /// then has the least rank, and is the first of those that have it.
    pub proof fn lemma_selection(self, props: Seq<SpecProp>)
        ensures
            self.selection(props) is Some <==> all_branches(props) && exists|j: int|
                0 <= j < props.len() && self.branch_rank(#[trigger] props[j]) < UNMATCHED_RANK,
            self.selection(props) matches Some(i) ==> self.wins(props, i),
    {
        if all_branches(props) {
            if exists|j: int|
                0 <= j < props.len() && self.branch_rank(#[trigger] props[j]) < UNMATCHED_RANK {
                let j = choose|j: int|
                    0 <= j < props.len() && self.branch_rank(#[trigger] props[j])
                        < UNMATCHED_RANK;
                let k = self.first_least(props, props.len() as int);
                assert(self.branch_rank(props[k]) <= self.branch_rank(props[j]));
                assert(self.wins(props, k));
            } else {
                assert forall|i: int| !self.wins(props, i) by {
                    if 0 <= i < props.len() {
                        assert(!(self.branch_rank(props[i]) < UNMATCHED_RANK));
                    }
                }
            }
        }
    }

    /// One property that cannot be a branch (a spread, a shorthand, an accessor,
    /// a computed or quoted key, ...) keeps the whole call from being
    /// specialised.
    pub proof fn lemma_disallowed_property_blocks(self, props: Seq<SpecProp>, j: int)
        requires
            0 <= j < props.len(),
            branch_key(props[j]) is None,
        ensures
            self.selection(props) is None,
    {
    }

    /// A selector call becomes the pass's result on exactly one of its
    /// branches, or keeps its shape, with the pass applied to the callee and
    /// the arguments. It is never specialised in part.
    pub proof fn lemma_call_is_one_branch_or_kept(
        self,
        callee: SpecExpr,
        args: Seq<SpecExprOrSpread>,
    )
        ensures
            ({
                let e = SpecExpr::Call { callee: Box::new(callee), args };
                match self.selected_branch(e) {
                    Some(SpecProp::KeyValue { value, .. }) => self.fold_expr(e) == self.fold_expr(
                        value,
                    ),
                    Some(SpecProp::Method { function, .. }) => self.fold_expr(e) == self.fold_expr(
                        SpecExpr::Fn { ident: None, function },
                    ),
                    Some(_) => false,
                    None => self.fold_expr(e) == (SpecExpr::Call {
                        callee: Box::new(self.fold_expr(callee)),
                        args: self.fold_args(args),
                    }),
                }
            }),
    {
        let e = SpecExpr::Call { callee: Box::new(callee), args };
        self.lemma_selected_branch_is_part(e);
        match self.selected_branch(e) {
            Some(SpecProp::Method { function, .. }) => {
                assert(self.fold_expr(SpecExpr::Fn { ident: None, function }) == (SpecExpr::Fn {
                    ident: None,
                    function: self.fold_function(function),
                }));
            },
            _ => {},
        }
    }

    /// The pass follows the rule that applies at each node: a replaced node
    /// becomes a literal, a selector call becomes the pass's result on its
    /// selected branch, and any other node keeps its kind, with the pass
    /// applied below it.
    pub proof fn lemma_fold_follows_rewrite(self, e: SpecExpr)
        ensures
            match self.rewrite(e) {
                SpecRewrite::PlatformOs => self.fold_expr(e) == SpecExpr::Lit(
                    SpecLit::Str(self.platforms[0]),
                ),
                SpecRewrite::DevFlag(b) => self.fold_expr(e) == SpecExpr::Lit(SpecLit::Bool(b)),
                SpecRewrite::Branch(i) => {
                    &&& self.selector_props(e) matches Some(props)
                    &&& self.wins(props, i)
                    &&& match props[i] {
                        SpecProp::KeyValue { value, .. } => self.fold_expr(e) == self.fold_expr(
                            value,
                        ),
                        SpecProp::Method { function, .. } => self.fold_expr(e) == self.fold_expr(
                            SpecExpr::Fn { ident: None, function },
                        ),
                        _ => false,
                    }
                },
                SpecRewrite::Descend => match e {
                    SpecExpr::Ident(_) => self.fold_expr(e) == e,
                    SpecExpr::Lit(_) => self.fold_expr(e) == e,
                    SpecExpr::Member { obj, prop } => self.fold_expr(e) == (SpecExpr::Member {
                        obj: Box::new(self.fold_expr(*obj)),
                        prop: self.fold_member_prop(prop),
                    }),
                    SpecExpr::Call { callee, args } => self.fold_expr(e) == (SpecExpr::Call {
                        callee: Box::new(self.fold_expr(*callee)),
                        args: self.fold_args(args),
                    }),
                    SpecExpr::Object { props } => self.fold_expr(e) == (SpecExpr::Object {
                        props: self.fold_props(props),
                    }),
                    SpecExpr::Fn { ident, function } => self.fold_expr(e) == (SpecExpr::Fn {
                        ident,
                        function: self.fold_function(function),
                    }),
                    SpecExpr::Other { label, children } => self.fold_expr(e) == (SpecExpr::Other {
                        label,
                        children: self.fold_exprs(children),
                    }),
                },
            },
    {
        if let SpecExpr::Call { callee, args } = e {
            self.lemma_call_is_one_branch_or_kept(*callee, args);
        }
    }

    /// No rule of the pass applies to `e` or to any node below it.
    pub open spec fn inert(self, e: SpecExpr) -> bool
        decreases e,
    {
        match e {
            SpecExpr::Ident(id) => !self.is_dev_flag(id),
            SpecExpr::Lit(_) => true,
            SpecExpr::Member { obj, prop } => {
                &&& !self.is_platform_os(e)
                &&& self.inert(*obj)
                &&& self.inert_member_prop(prop)
            },
            SpecExpr::Call { callee, args } => {
                &&& self.selected_branch(e) is None
                &&& self.inert(*callee)
                &&& self.inert_args(args)
            },
            SpecExpr::Object { props } => self.inert_props(props),
            SpecExpr::Fn { function, .. } => self.inert_function(function),
            SpecExpr::Other { children, .. } => self.inert_all(children),
        }
    }

    pub open spec fn inert_member_prop(self, p: SpecMemberProp) -> bool
        decreases p,
    {
        match p {
            SpecMemberProp::Ident(_) => true,
            SpecMemberProp::Computed(e) => self.inert(*e),
        }
    }

    pub open spec fn inert_prop_name(self, k: SpecPropName) -> bool
        decreases k,
    {
        match k {
            SpecPropName::Computed(e) => self.inert(e),
            _ => true,
        }
    }

    pub open spec fn inert_function(self, f: SpecFunction) -> bool
        decreases f,
    {
        self.inert_all(f.params) && self.inert_all(f.body)
    }

    pub open spec fn inert_prop(self, p: SpecProp) -> bool
        decreases p,
    {
        match p {
            SpecProp::Spread(e) => self.inert(e),
            SpecProp::Shorthand(_) => true,
            SpecProp::KeyValue { key, value } => self.inert_prop_name(key) && self.inert(value),
            SpecProp::Assign { value, .. } => self.inert(value),
            SpecProp::Getter { key, function } => self.inert_prop_name(key)
                && self.inert_function(function),
            SpecProp::Setter { key, function } => self.inert_prop_name(key)
                && self.inert_function(function),
            SpecProp::Method { key, function } => self.inert_prop_name(key)
                && self.inert_function(function),
        }
    }

    pub open spec fn inert_all(self, s: Seq<SpecExpr>) -> bool
        decreases s,
    {
        forall|i: int| 0 <= i < s.len() ==> self.inert(#[trigger] s[i])
    }

    pub open spec fn inert_args(self, s: Seq<SpecExprOrSpread>) -> bool
        decreases s,
    {
        forall|i: int| 0 <= i < s.len() ==> self.inert((#[trigger] s[i]).expr)
    }

    pub open spec fn inert_props(self, s: Seq<SpecProp>) -> bool
        decreases s,
    {
        forall|i: int| 0 <= i < s.len() ==> self.inert_prop(#[trigger] s[i])
    }

    /// Where no rule applies anywhere, the pass changes nothing.
    pub proof fn lemma_inert_is_fixed(self, e: SpecExpr)
        requires
            self.inert(e),
        ensures
            self.fold_expr(e) == e,
        decreases e,
    {
        match e {
            SpecExpr::Member { obj, prop } => {
                self.lemma_inert_is_fixed(*obj);
                self.lemma_inert_member_prop_is_fixed(prop);
            },
            SpecExpr::Call { callee, args } => {
                self.lemma_inert_is_fixed(*callee);
                self.lemma_inert_args_are_fixed(args);
            },
            SpecExpr::Object { props } => {
                self.lemma_inert_props_are_fixed(props);
            },
            SpecExpr::Fn { function, .. } => {
                self.lemma_inert_function_is_fixed(function);
            },
            SpecExpr::Other { children, .. } => {
                self.lemma_inert_all_are_fixed(children);
            },
            _ => {},
        }
    }

    proof fn lemma_inert_member_prop_is_fixed(self, p: SpecMemberProp)
        requires
            self.inert_member_prop(p),
        ensures
            self.fold_member_prop(p) == p,
        decreases p,
    {
        match p {
            SpecMemberProp::Computed(e) => {
                self.lemma_inert_is_fixed(*e);
            },
            _ => {},
        }
    }

    proof fn lemma_inert_prop_name_is_fixed(self, k: SpecPropName)
        requires
            self.inert_prop_name(k),
        ensures
            self.fold_prop_name(k) == k,
        decreases k,
    {
        match k {
            SpecPropName::Computed(e) => {
                self.lemma_inert_is_fixed(e);
            },
            _ => {},
        }
    }

    proof fn lemma_inert_function_is_fixed(self, f: SpecFunction)
        requires
            self.inert_function(f),
        ensures
            self.fold_function(f) == f,
        decreases f,
    {
        self.lemma_inert_all_are_fixed(f.params);
        self.lemma_inert_all_are_fixed(f.body);
    }

    proof fn lemma_inert_prop_is_fixed(self, p: SpecProp)
        requires
            self.inert_prop(p),
        ensures
            self.fold_prop(p) == p,
        decreases p,
    {
        match p {
            SpecProp::Spread(e) => {
                self.lemma_inert_is_fixed(e);
            },
            SpecProp::Shorthand(_) => {},
            SpecProp::KeyValue { key, value } => {
                self.lemma_inert_prop_name_is_fixed(key);
                self.lemma_inert_is_fixed(value);
            },
            SpecProp::Assign { value, .. } => {
                self.lemma_inert_is_fixed(value);
            },
            SpecProp::Getter { key, function } => {
                self.lemma_inert_prop_name_is_fixed(key);
                self.lemma_inert_function_is_fixed(function);
            },
            SpecProp::Setter { key, function } => {
                self.lemma_inert_prop_name_is_fixed(key);
                self.lemma_inert_function_is_fixed(function);
            },
            SpecProp::Method { key, function } => {
                self.lemma_inert_prop_name_is_fixed(key);
                self.lemma_inert_function_is_fixed(function);
            },
        }
    }

    proof fn lemma_inert_all_are_fixed(self, s: Seq<SpecExpr>)
        requires
            self.inert_all(s),
        ensures
            self.fold_exprs(s) == s,
        decreases s,
    {
        assert forall|i: int| 0 <= i < s.len() implies self.fold_expr(#[trigger] s[i]) == s[i] by {
            self.lemma_inert_is_fixed(s[i]);
        }
        assert(self.fold_exprs(s) =~= s);
    }

    proof fn lemma_inert_args_are_fixed(self, s: Seq<SpecExprOrSpread>)
        requires
            self.inert_args(s),
        ensures
            self.fold_args(s) == s,
        decreases s,
    {
        assert forall|i: int| 0 <= i < s.len() implies self.fold_arg(#[trigger] s[i]) == s[i] by {
            self.lemma_inert_is_fixed(s[i].expr);
        }
        assert(self.fold_args(s) =~= s);
    }

    proof fn lemma_inert_props_are_fixed(self, s: Seq<SpecProp>)
        requires
            self.inert_props(s),
        ensures
            self.fold_props(s) == s,
        decreases s,
    {
        assert forall|i: int| 0 <= i < s.len() implies self.fold_prop(#[trigger] s[i]) == s[i] by {
            self.lemma_inert_prop_is_fixed(s[i]);
        }
        assert(self.fold_props(s) =~= s);
    }

    /// Running the pass on its own result changes nothing more, as long as no
    /// rule applies in that result.
    pub proof fn lemma_idempotent(self, e: SpecExpr)
        requires
            self.inert(self.fold_expr(e)),
        ensures
            self.fold_expr(self.fold_expr(e)) == self.fold_expr(e),
    {
        self.lemma_inert_is_fixed(self.fold_expr(e));
    }

    /// `e` is a selector call that the pass replaces by one of its branches.
    pub open spec fn is_specialised(self, e: SpecExpr) -> bool {
        self.selected_branch(e) is Some
    }

    /// Neither `obj` nor, where `obj` is a member access, its object is
    /// replaced by a branch: what `obj` denotes is not changed by the pass.
    pub open spec fn keeps_reference(self, obj: SpecExpr) -> bool {
        &&& !self.is_specialised(obj)
        &&& obj matches SpecExpr::Member { obj: inner, .. } ==> !self.is_specialised(*inner)
    }

    /// No branch that the pass selects lands where a rule would read it again:
    /// as the object of an `.OS` or `.select` access, as a callee, or as the
    /// argument of a `.select` call. Branches that lose are not looked at.
    pub open spec fn settles(self, e: SpecExpr) -> bool
        decreases e,
    {
        match e {
            SpecExpr::Ident(_) => true,
            SpecExpr::Lit(_) => true,
            SpecExpr::Member { obj, prop } => self.is_platform_os(e) || {
                &&& self.settles(*obj)
                &&& self.settles_member_prop(prop)
                &&& prop == SpecMemberProp::Ident("OS"@) ==> self.keeps_reference(*obj)
            },
            SpecExpr::Call { callee, args } => {
                proof {
                    self.lemma_selected_branch_is_part(e);
                }
                match self.selected_branch(e) {
                    Some(SpecProp::KeyValue { value, .. }) => self.settles(value),
                    Some(SpecProp::Method { function, .. }) => self.settles_function(function),
                    Some(_) => true,
                    None => {
                        &&& self.settles(*callee)
                        &&& self.settles_args(args)
                        &&& !self.is_specialised(*callee)
                        &&& *callee matches SpecExpr::Member { obj, prop } ==> prop
                            == SpecMemberProp::Ident("select"@) ==> {
                            &&& self.keeps_reference(*obj)
                            &&& args.len() == 1 ==> !self.is_specialised(args[0].expr)
                        }
                    },
                }
            },
            SpecExpr::Object { props } => self.settles_props(props),
            SpecExpr::Fn { function, .. } => self.settles_function(function),
            SpecExpr::Other { children, .. } => self.settles_all(children),
        }
    }

    pub open spec fn settles_member_prop(self, p: SpecMemberProp) -> bool
        decreases p,
    {
        match p {
            SpecMemberProp::Ident(_) => true,
            SpecMemberProp::Computed(e) => self.settles(*e),
        }
    }

    pub open spec fn settles_prop_name(self, k: SpecPropName) -> bool
        decreases k,
    {
        match k {
            SpecPropName::Computed(e) => self.settles(e),
            _ => true,
        }
    }

    pub open spec fn settles_function(self, f: SpecFunction) -> bool
        decreases f,
    {
        self.settles_all(f.params) && self.settles_all(f.body)
    }

    pub open spec fn settles_prop(self, p: SpecProp) -> bool
        decreases p,
    {
        match p {
            SpecProp::Spread(e) => self.settles(e),
            SpecProp::Shorthand(_) => true,
            SpecProp::KeyValue { key, value } => self.settles_prop_name(key) && self.settles(
                value,
            ),
            SpecProp::Assign { value, .. } => self.settles(value),
            SpecProp::Getter { key, function } => self.settles_prop_name(key)
                && self.settles_function(function),
            SpecProp::Setter { key, function } => self.settles_prop_name(key)
                && self.settles_function(function),
            SpecProp::Method { key, function } => self.settles_prop_name(key)
                && self.settles_function(function),
        }
    }

    pub open spec fn settles_all(self, s: Seq<SpecExpr>) -> bool
        decreases s,
    {
        forall|i: int| 0 <= i < s.len() ==> self.settles(#[trigger] s[i])
    }

    pub open spec fn settles_args(self, s: Seq<SpecExprOrSpread>) -> bool
        decreases s,
    {
        forall|i: int| 0 <= i < s.len() ==> self.settles((#[trigger] s[i]).expr)
    }

    pub open spec fn settles_props(self, s: Seq<SpecProp>) -> bool
        decreases s,
    {
        forall|i: int| 0 <= i < s.len() ==> self.settles_prop(#[trigger] s[i])
    }

    /// The pass keeps the kind of a node that it does not replace by a branch,
    /// unless it makes a literal of it.
    proof fn lemma_fold_keeps_kind(self, x: SpecExpr)
        requires
            !self.is_specialised(x),
        ensures
            self.fold_expr(x) is Ident ==> self.fold_expr(x) == x,
            self.fold_expr(x) matches SpecExpr::Member { obj, prop } ==> {
                &&& x matches SpecExpr::Member { obj: obj0, prop: prop0 }
                &&& !self.is_platform_os(x)
                &&& *obj == self.fold_expr(*obj0)
                &&& prop == self.fold_member_prop(prop0)
            },
            self.fold_expr(x) matches SpecExpr::Object { props } ==> {
                &&& x matches SpecExpr::Object { props: props0 }
                &&& props == self.fold_props(props0)
            },
            self.fold_expr(x) is Call ==> x is Call,
    {
        self.lemma_fold_follows_rewrite(x);
    }

    /// What the object of a member access denotes after the pass, it denoted
    /// before.
    proof fn lemma_reference_kept(self, obj: SpecExpr)
        requires
            self.keeps_reference(obj),
            self.collect.module_reference(self.fold_expr(obj)) is Some,
        ensures
            self.collect.module_reference(self.fold_expr(obj)) == self.collect.module_reference(
                obj,
            ),
    {
        self.lemma_fold_keeps_kind(obj);
        if let SpecExpr::Member { obj: inner, prop } = obj {
            self.lemma_fold_keeps_kind(*inner);
            assert(self.fold_member_prop(prop) is Ident ==> self.fold_member_prop(prop) == prop);
        }
    }

    /// The pass changes neither which properties of an object can be branches
    /// nor their keys, so it does not change which branch is selected.
    proof fn lemma_selection_kept(self, props: Seq<SpecProp>)
        ensures
            self.selection(self.fold_props(props)) is Some <==> self.selection(props) is Some,
    {
        let folded = self.fold_props(props);
        assert forall|i: int| 0 <= i < props.len() implies branch_key(#[trigger] folded[i])
            == branch_key(props[i]) by {
            let p = props[i];
            assert(folded[i] == self.fold_prop(p));
            match p {
                SpecProp::KeyValue { key, .. } => {
                    assert(self.fold_prop_name(key) is Ident ==> self.fold_prop_name(key) == key);
                    assert(key is Ident ==> self.fold_prop_name(key) == key);
                },
                SpecProp::Method { key, .. } => {
                    assert(self.fold_prop_name(key) is Ident ==> self.fold_prop_name(key) == key);
                    assert(key is Ident ==> self.fold_prop_name(key) == key);
                },
                _ => {},
            }
        }
        self.lemma_selection(props);
        self.lemma_selection(folded);
        if all_branches(props) && exists|j: int|
            0 <= j < props.len() && self.branch_rank(#[trigger] props[j]) < UNMATCHED_RANK {
            let j = choose|j: int|
                0 <= j < props.len() && self.branch_rank(#[trigger] props[j]) < UNMATCHED_RANK;
            assert(self.branch_rank(folded[j]) < UNMATCHED_RANK);
            assert forall|i: int| 0 <= i < folded.len() implies branch_key(
                #[trigger] folded[i],
            ) is Some by {
                assert(branch_key(props[i]) is Some);
            }
        }
        if all_branches(folded) && exists|j: int|
            0 <= j < folded.len() && self.branch_rank(#[trigger] folded[j]) < UNMATCHED_RANK {
            let j = choose|j: int|
                0 <= j < folded.len() && self.branch_rank(#[trigger] folded[j]) < UNMATCHED_RANK;
            assert(self.branch_rank(props[j]) < UNMATCHED_RANK);
            assert forall|i: int| 0 <= i < props.len() implies branch_key(
                #[trigger] props[i],
            ) is Some by {
                assert(branch_key(folded[i]) is Some);
            }
        }
    }

    /// On a tree that settles, no rule applies anywhere in the pass's result.
    pub proof fn lemma_result_is_inert(self, e: SpecExpr)
        requires
            self.settles(e),
        ensures
            self.inert(self.fold_expr(e)),
        decreases e,
    {
        self.lemma_fold_follows_rewrite(e);
        match e {
            SpecExpr::Ident(_) => {},
            SpecExpr::Lit(_) => {},
            SpecExpr::Member { obj, prop } => {
                if !self.is_platform_os(e) {
                    self.lemma_result_is_inert(*obj);
                    self.lemma_member_prop_result_is_inert(prop);
                    let r = self.fold_expr(e);
                    if self.is_platform_os(r) {
                        assert(self.fold_member_prop(prop) is Ident ==> self.fold_member_prop(prop)
                            == prop);
                        self.lemma_reference_kept(*obj);
                    }
                }
            },
            SpecExpr::Call { callee, args } => {
                self.lemma_selected_branch_is_part(e);
                match self.selected_branch(e) {
                    Some(SpecProp::KeyValue { value, .. }) => {
                        self.lemma_result_is_inert(value);
                    },
                    Some(SpecProp::Method { function, .. }) => {
                        self.lemma_function_result_is_inert(function);
                        assert(self.fold_expr(e) == (SpecExpr::Fn {
                            ident: None,
                            function: self.fold_function(function),
                        }));
                    },
                    Some(_) => {},
                    None => {
                        self.lemma_result_is_inert(*callee);
                        self.lemma_args_result_is_inert(args);
                        let r = self.fold_expr(e);
                        let folded_args = self.fold_args(args);
                        if let Some(folded_props) = self.selector_props(r) {
                            self.lemma_fold_keeps_kind(*callee);
                            let obj = callee->obj;
                            self.lemma_reference_kept(*obj);
                            assert(folded_args[0] == self.fold_arg(args[0]));
                            self.lemma_fold_keeps_kind(args[0].expr);
                            let props = args[0].expr->props;
                            assert(self.selector_props(e) == Some(props));
                            self.lemma_selection_kept(props);
                        }
                    },
                }
            },
            SpecExpr::Object { props } => {
                self.lemma_props_result_is_inert(props);
            },
            SpecExpr::Fn { function, .. } => {
                self.lemma_function_result_is_inert(function);
            },
            SpecExpr::Other { children, .. } => {
                self.lemma_all_results_are_inert(children);
            },
        }
    }

    proof fn lemma_member_prop_result_is_inert(self, p: SpecMemberProp)
        requires
            self.settles_member_prop(p),
        ensures
            self.inert_member_prop(self.fold_member_prop(p)),
        decreases p,
    {
        match p {
            SpecMemberProp::Computed(e) => {
                self.lemma_result_is_inert(*e);
            },
            _ => {},
        }
    }

    proof fn lemma_prop_name_result_is_inert(self, k: SpecPropName)
        requires
            self.settles_prop_name(k),
        ensures
            self.inert_prop_name(self.fold_prop_name(k)),
        decreases k,
    {
        match k {
            SpecPropName::Computed(e) => {
                self.lemma_result_is_inert(e);
            },
            _ => {},
        }
    }

    proof fn lemma_function_result_is_inert(self, f: SpecFunction)
        requires
            self.settles_function(f),
        ensures
            self.inert_function(self.fold_function(f)),
        decreases f,
    {
        self.lemma_all_results_are_inert(f.params);
        self.lemma_all_results_are_inert(f.body);
    }

    proof fn lemma_prop_result_is_inert(self, p: SpecProp)
        requires
            self.settles_prop(p),
        ensures
            self.inert_prop(self.fold_prop(p)),
        decreases p,
    {
        match p {
            SpecProp::Spread(e) => {
                self.lemma_result_is_inert(e);
            },
            SpecProp::Shorthand(_) => {},
            SpecProp::KeyValue { key, value } => {
                self.lemma_prop_name_result_is_inert(key);
                self.lemma_result_is_inert(value);
            },
            SpecProp::Assign { value, .. } => {
                self.lemma_result_is_inert(value);
            },
            SpecProp::Getter { key, function } => {
                self.lemma_prop_name_result_is_inert(key);
                self.lemma_function_result_is_inert(function);
            },
            SpecProp::Setter { key, function } => {
                self.lemma_prop_name_result_is_inert(key);
                self.lemma_function_result_is_inert(function);
            },
            SpecProp::Method { key, function } => {
                self.lemma_prop_name_result_is_inert(key);
                self.lemma_function_result_is_inert(function);
            },
        }
    }

    proof fn lemma_all_results_are_inert(self, s: Seq<SpecExpr>)
        requires
            self.settles_all(s),
        ensures
            self.inert_all(self.fold_exprs(s)),
        decreases s,
    {
        let folded = self.fold_exprs(s);
        assert forall|i: int| 0 <= i < folded.len() implies self.inert(#[trigger] folded[i]) by {
            assert(self.settles(s[i]));
            self.lemma_result_is_inert(s[i]);
        }
    }

    proof fn lemma_args_result_is_inert(self, s: Seq<SpecExprOrSpread>)
        requires
            self.settles_args(s),
        ensures
            self.inert_args(self.fold_args(s)),
        decreases s,
    {
        let folded = self.fold_args(s);
        assert forall|i: int| 0 <= i < folded.len() implies self.inert(
            (#[trigger] folded[i]).expr,
        ) by {
            assert(self.settles(s[i].expr));
            self.lemma_result_is_inert(s[i].expr);
            assert(folded[i] == self.fold_arg(s[i]));
        }
    }

    proof fn lemma_props_result_is_inert(self, s: Seq<SpecProp>)
        requires
            self.settles_props(s),
        ensures
            self.inert_props(self.fold_props(s)),
        decreases s,
    {
        let folded = self.fold_props(s);
        assert forall|i: int| 0 <= i < folded.len() implies self.inert_prop(
            #[trigger] folded[i],
        ) by {
            assert(self.settles_prop(s[i]));
            self.lemma_prop_result_is_inert(s[i]);
        }
    }

    /// Running the pass on its own result changes nothing more, on every tree
    /// that settles: what the pass puts in is a literal or a branch that it has
    /// already worked through.
    pub proof fn lemma_idempotent_where_settled(self, e: SpecExpr)
        requires
            self.settles(e),
        ensures
            self.fold_expr(self.fold_expr(e)) == self.fold_expr(e),
    {
        self.lemma_result_is_inert(e);
        self.lemma_idempotent(e);
    }
}

} // verus!
