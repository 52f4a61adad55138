//! The syntax tree that the pass rewrites, and its mathematical model.
//!
//! Every executable type has a model built from `Seq`, `Option` and plain
//! values. Contracts elsewhere in the crate are stated over the models; the
//! `View` implementations at the end of this file connect the two.

use vstd::prelude::*;

verus! {

/// An identifier occurrence: its name, and the number of the syntax context
/// that scope analysis gave to this occurrence. Two occurrences denote the
/// same binding exactly when both fields agree.
#[derive(Debug, PartialEq, Eq)]
pub struct Ident {
    pub sym: String,
    pub ctxt: u32,
}

/// A literal. Numbers are kept as they were written.
#[derive(Debug, PartialEq, Eq)]
pub enum Lit {
    Str(String),
    Bool(bool),
    Num(String),
}

/// The right-hand side of a member access: a property name (`obj.name`) or a
/// computed key (`obj[key]`). A property name is not an identifier occurrence.
#[derive(Debug, PartialEq, Eq)]
pub enum MemberProp {
    Ident(String),
    Computed(Box<Expr>),
}

/// One argument of a call, possibly spread (`...expr`).
#[derive(Debug, PartialEq, Eq)]
pub struct ExprOrSpread {
    pub spread: bool,
    pub expr: Expr,
}

/// The key of a property in an object literal.
#[derive(Debug, PartialEq, Eq)]
pub enum PropName {
    Ident(String),
    Str(String),
    Num(String),
    Computed(Expr),
}

/// Parameters, body and modifiers of a function. Parameters and statements are
/// syntax nodes like any other; binding positions are [`Expr::Other`] nodes.
#[derive(Debug, PartialEq, Eq)]
pub struct Function {
    pub params: Vec<Expr>,
    pub body: Vec<Expr>,
    pub is_generator: bool,
    pub is_async: bool,
}

/// One entry of an object literal.
#[derive(Debug, PartialEq, Eq)]
pub enum Prop {
    /// `...expr`
    Spread(Expr),
    /// `{ name }`
    Shorthand(Ident),
    /// `{ key: value }`
    KeyValue { key: PropName, value: Expr },
    /// `{ key = value }`, which only occurs in patterns
    Assign { name: Ident, value: Expr },
    /// `{ get key() { .. } }`
    Getter { key: PropName, function: Function },
    /// `{ set key(param) { .. } }`
    Setter { key: PropName, function: Function },
    /// `{ key(params) { .. } }`
    Method { key: PropName, function: Function },
}

/// A syntax node. The pass inspects identifiers, member accesses, calls and
/// object literals; every other kind of node (operators, statements, patterns,
/// declarations, ...) is an [`Expr::Other`], of which only the children matter.
#[derive(Debug, PartialEq, Eq)]
pub enum Expr {
    Ident(Ident),
    Lit(Lit),
    Member { obj: Box<Expr>, prop: MemberProp },
    Call { callee: Box<Expr>, args: Vec<ExprOrSpread> },
    Object { props: Vec<Prop> },
    Fn { ident: Option<Ident>, function: Function },
    Other { label: String, children: Vec<Expr> },
}

/// Model of an [`Ident`].
pub struct SpecIdent {
    pub sym: Seq<char>,
    pub ctxt: u32,
}

/// Model of a [`Lit`].
pub enum SpecLit {
    Str(Seq<char>),
    Bool(bool),
    Num(Seq<char>),
}

/// Model of a [`MemberProp`].
pub enum SpecMemberProp {
    Ident(Seq<char>),
    Computed(Box<SpecExpr>),
}

/// Model of an [`ExprOrSpread`].
pub struct SpecExprOrSpread {
    pub spread: bool,
    pub expr: SpecExpr,
}

/// Model of a [`PropName`].
pub enum SpecPropName {
    Ident(Seq<char>),
    Str(Seq<char>),
    Num(Seq<char>),
    Computed(SpecExpr),
}

/// Model of a [`Function`].
pub struct SpecFunction {
    pub params: Seq<SpecExpr>,
    pub body: Seq<SpecExpr>,
    pub is_generator: bool,
    pub is_async: bool,
}

/// Model of a [`Prop`].
pub enum SpecProp {
    Spread(SpecExpr),
    Shorthand(SpecIdent),
    KeyValue { key: SpecPropName, value: SpecExpr },
    Assign { name: SpecIdent, value: SpecExpr },
    Getter { key: SpecPropName, function: SpecFunction },
    Setter { key: SpecPropName, function: SpecFunction },
    Method { key: SpecPropName, function: SpecFunction },
}

/// Model of an [`Expr`].
pub enum SpecExpr {
    Ident(SpecIdent),
    Lit(SpecLit),
    Member { obj: Box<SpecExpr>, prop: SpecMemberProp },
    Call { callee: Box<SpecExpr>, args: Seq<SpecExprOrSpread> },
    Object { props: Seq<SpecProp> },
    Fn { ident: Option<SpecIdent>, function: SpecFunction },
    Other { label: Seq<char>, children: Seq<SpecExpr> },
}

pub open spec fn ident_model(id: Ident) -> SpecIdent {
    SpecIdent { sym: id.sym@, ctxt: id.ctxt }
}

pub open spec fn opt_ident_model(id: Option<Ident>) -> Option<SpecIdent> {
    match id {
        Some(id) => Some(ident_model(id)),
        None => None,
    }
}

pub open spec fn lit_model(lit: Lit) -> SpecLit {
    match lit {
        Lit::Str(s) => SpecLit::Str(s@),
        Lit::Bool(b) => SpecLit::Bool(b),
        Lit::Num(s) => SpecLit::Num(s@),
    }
}

pub open spec fn expr_model(e: Expr) -> SpecExpr
    decreases e,
{
    match e {
        Expr::Ident(id) => SpecExpr::Ident(ident_model(id)),
        Expr::Lit(lit) => SpecExpr::Lit(lit_model(lit)),
        Expr::Member { obj, prop } => SpecExpr::Member {
            obj: Box::new(expr_model(*obj)),
            prop: member_prop_model(prop),
        },
        Expr::Call { callee, args } => SpecExpr::Call {
            callee: Box::new(expr_model(*callee)),
            args: args_model(args@),
        },
        Expr::Object { props } => SpecExpr::Object { props: props_model(props@) },
        Expr::Fn { ident, function } => SpecExpr::Fn {
            ident: opt_ident_model(ident),
            function: function_model(function),
        },
        Expr::Other { label, children } => SpecExpr::Other {
            label: label@,
            children: exprs_model(children@),
        },
    }
}

pub open spec fn member_prop_model(p: MemberProp) -> SpecMemberProp
    decreases p,
{
    match p {
        MemberProp::Ident(name) => SpecMemberProp::Ident(name@),
        MemberProp::Computed(e) => SpecMemberProp::Computed(Box::new(expr_model(*e))),
    }
}

pub open spec fn arg_model(a: ExprOrSpread) -> SpecExprOrSpread
    decreases a,
{
    SpecExprOrSpread { spread: a.spread, expr: expr_model(a.expr) }
}

pub open spec fn prop_name_model(k: PropName) -> SpecPropName
    decreases k,
{
    match k {
        PropName::Ident(name) => SpecPropName::Ident(name@),
        PropName::Str(s) => SpecPropName::Str(s@),
        PropName::Num(s) => SpecPropName::Num(s@),
        PropName::Computed(e) => SpecPropName::Computed(expr_model(e)),
    }
}

pub open spec fn function_model(f: Function) -> SpecFunction
    decreases f,
{
    SpecFunction {
        params: exprs_model(f.params@),
        body: exprs_model(f.body@),
        is_generator: f.is_generator,
        is_async: f.is_async,
    }
}

pub open spec fn prop_model(p: Prop) -> SpecProp
    decreases p,
{
    match p {
        Prop::Spread(e) => SpecProp::Spread(expr_model(e)),
        Prop::Shorthand(id) => SpecProp::Shorthand(ident_model(id)),
        Prop::KeyValue { key, value } => SpecProp::KeyValue {
            key: prop_name_model(key),
            value: expr_model(value),
        },
        Prop::Assign { name, value } => SpecProp::Assign {
            name: ident_model(name),
            value: expr_model(value),
        },
        Prop::Getter { key, function } => SpecProp::Getter {
            key: prop_name_model(key),
            function: function_model(function),
        },
        Prop::Setter { key, function } => SpecProp::Setter {
            key: prop_name_model(key),
            function: function_model(function),
        },
        Prop::Method { key, function } => SpecProp::Method {
            key: prop_name_model(key),
            function: function_model(function),
        },
    }
}

pub open spec fn exprs_model(s: Seq<Expr>) -> Seq<SpecExpr>
    decreases s,
{
    Seq::new(
        s.len(),
        |i: int|
            if 0 <= i < s.len() {
                expr_model(s[i])
            } else {
                arbitrary()
            },
    )
}

pub open spec fn args_model(s: Seq<ExprOrSpread>) -> Seq<SpecExprOrSpread>
    decreases s,
{
    Seq::new(
        s.len(),
        |i: int|
            if 0 <= i < s.len() {
                arg_model(s[i])
            } else {
                arbitrary()
            },
    )
}

pub open spec fn props_model(s: Seq<Prop>) -> Seq<SpecProp>
    decreases s,
{
    Seq::new(
        s.len(),
        |i: int|
            if 0 <= i < s.len() {
                prop_model(s[i])
            } else {
                arbitrary()
            },
    )
}

impl Clone for Ident {
    fn clone(&self) -> (r: Self)
        ensures
            r@ == self@,
    {
        Ident { sym: self.sym.clone(), ctxt: self.ctxt }
    }
}

impl Clone for Lit {
    fn clone(&self) -> (r: Self)
        ensures
            r@ == self@,
    {
        match self {
            Lit::Str(s) => Lit::Str(s.clone()),
            Lit::Bool(b) => Lit::Bool(*b),
            Lit::Num(s) => Lit::Num(s.clone()),
        }
    }
}

impl View for Ident {
    type V = SpecIdent;

    open spec fn view(&self) -> SpecIdent {
        ident_model(*self)
    }
}

impl View for Lit {
    type V = SpecLit;

    open spec fn view(&self) -> SpecLit {
        lit_model(*self)
    }
}

impl View for MemberProp {
    type V = SpecMemberProp;

    open spec fn view(&self) -> SpecMemberProp {
        member_prop_model(*self)
    }
}

impl View for ExprOrSpread {
    type V = SpecExprOrSpread;

    open spec fn view(&self) -> SpecExprOrSpread {
        arg_model(*self)
    }
}

impl View for PropName {
    type V = SpecPropName;

    open spec fn view(&self) -> SpecPropName {
        prop_name_model(*self)
    }
}

impl View for Function {
    type V = SpecFunction;

    open spec fn view(&self) -> SpecFunction {
        function_model(*self)
    }
}

impl View for Prop {
    type V = SpecProp;

    open spec fn view(&self) -> SpecProp {
        prop_model(*self)
    }
}

impl View for Expr {
    type V = SpecExpr;

    open spec fn view(&self) -> SpecExpr {
        expr_model(*self)
    }
}

} // verus!
