//! The mathematical model of the analysis.
//!
//! Every function here is specification-level. `analyze` maps a module tree
//! and the two configuration values to the analysis state after the single
//! top-to-bottom pass; the executable engine is proved to compute exactly
//! this function.

use vstd::prelude::*;
use crate::ast::{CjsModule, Declarator, Expr, Prop, Stmt};
use crate::ins;

verus! {

/// The analysis state: the configuration, the three alias tables and the
/// two accumulating output lists. The alias tables and the output lists
/// are insertion-ordered and duplicate-free; they only ever grow.
#[verifier::ext_equal]
pub struct St {
    /// The configured environment label.
    pub env: Seq<char>,
    /// Whether self-invoking wrapper bodies are analyzed.
    pub call_mode: bool,
    /// Identifiers that denote the module's export object.
    pub aliases: Seq<Seq<char>>,
    /// Identifiers that denote the canonical module object.
    pub mod_aliases: Seq<Seq<char>>,
    /// Identifiers that denote the environment label accessor.
    pub env_aliases: Seq<Seq<char>>,
    /// The named exports discovered so far.
    pub named: Seq<Seq<char>>,
    /// The re-exported module specifiers discovered so far.
    pub reexports: Seq<Seq<char>>,
}

/// The state before any statement has been visited.
pub open spec fn init_st(env: Seq<char>, call_mode: bool) -> St {
    St {
        env,
        call_mode,
        aliases: Seq::empty(),
        mod_aliases: Seq::empty(),
        env_aliases: Seq::empty(),
        named: Seq::empty(),
        reexports: Seq::empty(),
    }
}

pub open spec fn add_named(st: St, n: Seq<char>) -> St {
    St { named: ins(st.named, n), ..st }
}

pub open spec fn add_reexport(st: St, s: Seq<char>) -> St {
    St { reexports: ins(st.reexports, s), ..st }
}

pub open spec fn add_alias(st: St, n: Seq<char>) -> St {
    St { aliases: ins(st.aliases, n), ..st }
}

pub open spec fn add_mod_alias(st: St, n: Seq<char>) -> St {
    St { mod_aliases: ins(st.mod_aliases, n), ..st }
}

pub open spec fn add_env_alias(st: St, n: Seq<char>) -> St {
    St { env_aliases: ins(st.env_aliases, n), ..st }
}

/// The expression with all surrounding parentheses removed.
pub open spec fn unparen(e: Expr) -> Expr
    decreases e,
{
    match e {
        Expr::Paren(inner) => unparen(*inner),
        _ => e,
    }
}

/// Whether `e` is the bare identifier `name`.
pub open spec fn is_named_ident(e: Expr, name: Seq<char>) -> bool {
    match e {
        Expr::Ident(n) => n@ == name,
        _ => false,
    }
}

/// The string literal `e` holds, if it is one (through parentheses).
pub open spec fn lit_of(e: Expr) -> Option<Seq<char>>
    decreases e,
{
    match e {
        Expr::Paren(inner) => lit_of(*inner),
        Expr::StrLit(s) => Some(s@),
        _ => None,
    }
}

/// Whether `e` denotes the canonical module object: the identifier
/// `module` or a registered alias of it.
pub open spec fn is_module_ref(st: St, e: Expr) -> bool
    decreases e,
{
    match e {
        Expr::Paren(inner) => is_module_ref(st, *inner),
        Expr::Ident(n) => n@ == "module"@ || st.mod_aliases.contains(n@),
        _ => false,
    }
}

/// Whether `e` denotes the module's export object: the bare `exports`
/// binding, a registered alias, or `<module ref>.exports`.
pub open spec fn is_export_ref(st: St, e: Expr) -> bool
    decreases e,
{
    match e {
        Expr::Paren(inner) => is_export_ref(st, *inner),
        Expr::Ident(n) => n@ == "exports"@ || st.aliases.contains(n@),
        Expr::Member(obj, prop) => prop@ == "exports"@ && is_module_ref(st, *obj),
        _ => false,
    }
}

/// Whether `e` is the well-known accessor `process.env`.
pub open spec fn is_process_env(e: Expr) -> bool
    decreases e,
{
    match e {
        Expr::Paren(inner) => is_process_env(*inner),
        Expr::Member(obj, prop) => prop@ == "env"@ && is_named_ident(unparen(*obj), "process"@),
        _ => false,
    }
}

/// Whether `e` denotes the current environment label:
/// `process.env.NODE_ENV` or a registered alias of it.
pub open spec fn is_env_ref(st: St, e: Expr) -> bool
    decreases e,
{
    match e {
        Expr::Paren(inner) => is_env_ref(st, *inner),
        Expr::Ident(n) => st.env_aliases.contains(n@),
        Expr::Member(obj, prop) => prop@ == "NODE_ENV"@ && is_process_env(*obj),
        _ => false,
    }
}

/// The specifier of a require-like call `require("<specifier>")`, if `e`
/// is one (through parentheses).
pub open spec fn require_arg(e: Expr) -> Option<Seq<char>>
    decreases e,
{
    match e {
        Expr::Paren(inner) => require_arg(*inner),
        Expr::Call(callee, args) => if is_named_ident(unparen(*callee), "require"@)
            && args@.len() >= 1 {
            lit_of(args@[0])
        } else {
            None
        },
        _ => None,
    }
}

/// The properties of an object literal, if `e` is one (through
/// parentheses).
pub open spec fn object_props(e: Expr) -> Option<Seq<Prop>>
    decreases e,
{
    match e {
        Expr::Paren(inner) => object_props(*inner),
        Expr::ObjectLit(ps) => Some(ps@),
        _ => None,
    }
}

/// The parameters and body of a function expression, if `e` is one
/// (through parentheses).
pub open spec fn callback_parts(e: Expr) -> Option<(Seq<String>, Seq<Stmt>)>
    decreases e,
{
    match e {
        Expr::Paren(inner) => callback_parts(*inner),
        Expr::FnExpr(params, body) => Some((params@, body@)),
        _ => None,
    }
}

/// One property of a wholesale object-literal export: a literal key is a
/// named export; a spread of a require-like call is a re-export; anything
/// else is inert.
pub open spec fn record_prop(st: St, p: Prop) -> St {
    match p {
        Prop::KeyValue(k, _v) => add_named(st, k@),
        Prop::Shorthand(k) => add_named(st, k@),
        Prop::Spread(e) => match require_arg(*e) {
            Some(s) => add_reexport(st, s),
            None => st,
        },
        Prop::Opaque => st,
    }
}

pub open spec fn record_props(st: St, ps: Seq<Prop>) -> St
    decreases ps.len(),
{
    if ps.len() == 0 {
        st
    } else {
        record_props(record_prop(st, ps[0]), ps.drop_first())
    }
}

/// One property of a `defineProperties` argument: only literal keys are
/// recorded.
pub open spec fn record_key(st: St, p: Prop) -> St {
    match p {
        Prop::KeyValue(k, _v) => add_named(st, k@),
        Prop::Shorthand(k) => add_named(st, k@),
        _ => st,
    }
}

pub open spec fn record_keys(st: St, ps: Seq<Prop>) -> St
    decreases ps.len(),
{
    if ps.len() == 0 {
        st
    } else {
        record_keys(record_key(st, ps[0]), ps.drop_first())
    }
}

/// A wholesale assignment to the export object: a require-like call is a
/// re-export; an object literal yields its properties; anything else is
/// inert.
pub open spec fn wholesale(st: St, v: Expr) -> St
    decreases v,
{
    match v {
        Expr::Paren(inner) => wholesale(st, *inner),
        Expr::ObjectLit(ps) => record_props(st, ps@),
        _ => match require_arg(v) {
            Some(s) => add_reexport(st, s),
            None => st,
        },
    }
}

/// Binding an identifier to a value: if the value denotes the export
/// object, the module object, or the environment label, the identifier
/// becomes an alias of it.
pub open spec fn bind_ident(st: St, n: Seq<char>, v: Expr) -> St {
    if is_export_ref(st, v) {
        add_alias(st, n)
    } else if is_module_ref(st, v) {
        add_mod_alias(st, n)
    } else if is_env_ref(st, v) {
        add_env_alias(st, n)
    } else {
        st
    }
}

pub open spec fn run_decl(st: St, d: Declarator) -> St {
    match d.init {
        Some(v) => bind_ident(st, d.name@, v),
        None => st,
    }
}

pub open spec fn run_decls(st: St, ds: Seq<Declarator>) -> St
    decreases ds.len(),
{
    if ds.len() == 0 {
        st
    } else {
        run_decls(run_decl(st, ds[0]), ds.drop_first())
    }
}

/// Whether `e` is `Object.defineProperty(<export ref>, <key ident>, ...)`
/// with the iteration variable `key` as the property key.
pub open spec fn defines_key_expr(st: St, e: Expr, key: Seq<char>) -> bool
    decreases e,
{
    match e {
        Expr::Paren(inner) => defines_key_expr(st, *inner, key),
        Expr::Call(callee, args) => {
            &&& is_member_of_object(unparen(*callee), "defineProperty"@)
            &&& args@.len() >= 2
            &&& is_export_ref(st, args@[0])
            &&& is_named_ident(unparen(args@[1]), key)
        },
        _ => false,
    }
}

pub open spec fn defines_key_stmt(st: St, s: Stmt, key: Seq<char>) -> bool {
    match s {
        Stmt::Expr(e) => defines_key_expr(st, e, key),
        _ => false,
    }
}

/// Whether some top-level statement of a callback body applies the
/// `defineProperty` pattern with `key` as the property key.
pub open spec fn body_defines_key(st: St, ss: Seq<Stmt>, key: Seq<char>) -> bool
    decreases ss.len(),
{
    if ss.len() == 0 {
        false
    } else {
        defines_key_stmt(st, ss[0], key) || body_defines_key(st, ss.drop_first(), key)
    }
}

/// Whether `e` is the member access `Object.<mname>`.
pub open spec fn is_member_of_object(e: Expr, mname: Seq<char>) -> bool {
    match e {
        Expr::Member(obj, prop) => prop@ == mname && is_named_ident(unparen(*obj), "Object"@),
        _ => false,
    }
}

/// The key-list iteration source `Object.keys(require("<specifier>"))`,
/// if `e` is one (through parentheses).
pub open spec fn keys_arg(e: Expr) -> Option<Seq<char>>
    decreases e,
{
    match e {
        Expr::Paren(inner) => keys_arg(*inner),
        Expr::Call(callee, args) => if is_member_of_object(unparen(*callee), "keys"@)
            && args@.len() >= 1 {
            require_arg(args@[0])
        } else {
            None
        },
        _ => None,
    }
}

/// An environment-label guard `<env ref> === "<literal>"` (either operand
/// order): whether the literal matches the configured label.
pub open spec fn eq_guard(st: St, l: Expr, r: Expr) -> Option<bool> {
    if is_env_ref(st, l) {
        match lit_of(r) {
            Some(s) => Some(s == st.env),
            None => None,
        }
    } else if is_env_ref(st, r) {
        match lit_of(l) {
            Some(s) => Some(s == st.env),
            None => None,
        }
    } else {
        None
    }
}

/// The statically resolved value of a conditional's test, if the test is
/// a recognized environment-label guard.
pub open spec fn guard_value(st: St, test: Expr) -> Option<bool>
    decreases test,
{
    match test {
        Expr::Paren(inner) => guard_value(st, *inner),
        Expr::StrictEq(l, r) => eq_guard(st, *l, *r),
        Expr::StrictNeq(l, r) => match eq_guard(st, *l, *r) {
            Some(b) => Some(!b),
            None => None,
        },
        _ => None,
    }
}

/// An assignment `t = v`: wholesale replacement of the export object, a
/// member export on the export object, a suppressed computed member, or
/// an identifier binding.
pub open spec fn step_assign(st: St, t: Expr, v: Expr) -> St
    decreases t,
{
    match t {
        Expr::Paren(inner) => step_assign(st, *inner, v),
        _ => if is_export_ref(st, t) {
            wholesale(st, v)
        } else {
            match t {
                Expr::Member(obj, name) => if is_export_ref(st, *obj) {
                    add_named(st, name@)
                } else {
                    st
                },
                Expr::ComputedMember(_obj, _key) => st,
                Expr::Ident(n) => bind_ident(st, n@, v),
                _ => st,
            }
        },
    }
}

/// A call at statement position: a `defineProperty`/`defineProperties`
/// export, a key-list copy-forwarding re-export, or a self-invoking
/// wrapper.
pub open spec fn step_call(st: St, callee: Expr, args: Seq<Expr>) -> St
    decreases callee, 0nat,
{
    match callee {
        Expr::Paren(inner) => step_call(st, *inner, args),
        Expr::FnExpr(_params, body) => if st.call_mode {
            walk(st, body@, true)
        } else {
            st
        },
        Expr::Member(obj, mname) => {
            if is_named_ident(unparen(*obj), "Object"@) && mname@ == "defineProperty"@
                && args.len() >= 2 && is_export_ref(st, args[0]) {
                match lit_of(args[1]) {
                    Some(n) => add_named(st, n),
                    None => st,
                }
            } else if is_named_ident(unparen(*obj), "Object"@) && mname@ == "defineProperties"@
                && args.len() >= 2 && is_export_ref(st, args[0]) {
                match object_props(args[1]) {
                    Some(ps) => record_keys(st, ps),
                    None => st,
                }
            } else if mname@ == "forEach"@ || mname@ == "map"@ {
                match keys_arg(*obj) {
                    Some(specifier) => if args.len() >= 1 {
                        match callback_parts(args[0]) {
                            Some(pb) => if pb.0.len() >= 1 && body_defines_key(st, pb.1, pb.0[0]@) {
                                add_reexport(st, specifier)
                            } else {
                                st
                            },
                            None => st,
                        }
                    } else {
                        st
                    },
                    None => st,
                }
            } else {
                st
            }
        },
        _ => st,
    }
}

/// An expression at statement position.
pub open spec fn step_expr(st: St, e: Expr) -> St
    decreases e, 0nat,
{
    match e {
        Expr::Paren(inner) => step_expr(st, *inner),
        Expr::Assign(t, v) => step_assign(st, *t, *v),
        Expr::Call(callee, args) => step_call(st, *callee, args@),
        _ => st,
    }
}

/// One statement of the catalogue; unrecognized shapes are inert.
pub open spec fn step(st: St, s: Stmt) -> St
    decreases s, 1nat,
{
    match s {
        Stmt::Expr(e) => step_expr(st, e),
        Stmt::VarDecl(ds) => run_decls(st, ds@),
        Stmt::If(test, cons, alt) => match guard_value(st, test) {
            Some(true) => walk_branch(st, *cons),
            Some(false) => match alt {
                Some(a) => walk_branch(st, *a),
                None => st,
            },
            None => st,
        },
        _ => st,
    }
}

/// Descent into a selected conditional branch: a block is walked
/// statement by statement, any other statement is visited directly.
pub open spec fn walk_branch(st: St, b: Stmt) -> St
    decreases b, 2nat,
{
    match b {
        Stmt::Block(ss) => walk(st, ss@, false),
        _ => step(st, b),
    }
}

/// The single pass over a statement list. Inside a wrapper body
/// (`fn_body`), a top-level `return` makes the following statements
/// unreachable, so the walk stops there.
pub open spec fn walk(st: St, ss: Seq<Stmt>, fn_body: bool) -> St
    decreases ss, 0nat,
{
    if ss.len() == 0 {
        st
    } else if fn_body && ss[0] is Return {
        st
    } else {
        walk(step(st, ss[0]), ss.drop_first(), fn_body)
    }
}

/// The complete analysis of a module under a configuration.
pub open spec fn analyze(m: CjsModule, env: Seq<char>, call_mode: bool) -> St {
    walk(init_st(env, call_mode), m.body@, false)
}

} // verus!
