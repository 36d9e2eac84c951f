//! The executable analysis engine.
//!
//! Each function mirrors one function of the model and is proved to compute
//! exactly it. The engine walks the top-level statement list once, in source
//! order, dispatching each statement to the matching pattern and growing the
//! analyzer state; it never fails and never revisits a statement.

use vstd::prelude::*;
use crate::ast::{CjsModule, Declarator, Expr, Prop, Stmt};
use crate::model;
use crate::model::St;
use crate::ordset::{str_eq, views_of, StrSet};

verus! {

/// The mutable traversal state: the configuration, the three alias
/// tables and the two output accumulators.
pub struct Analyzer {
    pub node_env: String,
    pub call_mode: bool,
    pub exports_alias: StrSet,
    pub module_alias: StrSet,
    pub env_alias: StrSet,
    pub named_exports: StrSet,
    pub reexports: StrSet,
}

impl Analyzer {
    /// The model state this analyzer stands for.
    pub open spec fn st(&self) -> St {
        St {
            env: self.node_env@,
            call_mode: self.call_mode,
            aliases: self.exports_alias@,
            mod_aliases: self.module_alias@,
            env_aliases: self.env_alias@,
            named: self.named_exports@,
            reexports: self.reexports@,
        }
    }
}

/// The expression with all surrounding parentheses removed.
fn strip<'a>(e: &'a Expr) -> (r: &'a Expr)
    ensures
        *r == model::unparen(*e),
    decreases *e,
{
    match e {
        Expr::Paren(inner) => strip(&**inner),
        _ => e,
    }
}

fn is_ident_named(e: &Expr, name: &str) -> (r: bool)
    ensures
        r == model::is_named_ident(*e, name@),
{
    match e {
        Expr::Ident(n) => str_eq(n.as_str(), name),
        _ => false,
    }
}

fn lit_str<'a>(e: &'a Expr) -> (r: Option<&'a String>)
    ensures
        match r {
            Some(s) => model::lit_of(*e) == Some(s@),
            None => model::lit_of(*e) is None,
        },
    decreases *e,
{
    match e {
        Expr::Paren(inner) => lit_str(&**inner),
        Expr::StrLit(s) => Some(s),
        _ => None,
    }
}

fn is_module_ref(a: &Analyzer, e: &Expr) -> (r: bool)
    ensures
        r == model::is_module_ref(a.st(), *e),
    decreases *e,
{
    match e {
        Expr::Paren(inner) => is_module_ref(a, &**inner),
        Expr::Ident(n) => str_eq(n.as_str(), "module") || a.module_alias.contains(n.as_str()),
        _ => false,
    }
}

fn is_export_ref(a: &Analyzer, e: &Expr) -> (r: bool)
    ensures
        r == model::is_export_ref(a.st(), *e),
    decreases *e,
{
    match e {
        Expr::Paren(inner) => is_export_ref(a, &**inner),
        Expr::Ident(n) => str_eq(n.as_str(), "exports") || a.exports_alias.contains(n.as_str()),
        Expr::Member(obj, prop) => str_eq(prop.as_str(), "exports") && is_module_ref(a, &**obj),
        _ => false,
    }
}

fn is_process_env(e: &Expr) -> (r: bool)
    ensures
        r == model::is_process_env(*e),
    decreases *e,
{
    match e {
        Expr::Paren(inner) => is_process_env(&**inner),
        Expr::Member(obj, prop) => str_eq(prop.as_str(), "env")
            && is_ident_named(strip(&**obj), "process"),
        _ => false,
    }
}

fn is_env_ref(a: &Analyzer, e: &Expr) -> (r: bool)
    ensures
        r == model::is_env_ref(a.st(), *e),
    decreases *e,
{
    match e {
        Expr::Paren(inner) => is_env_ref(a, &**inner),
        Expr::Ident(n) => a.env_alias.contains(n.as_str()),
        Expr::Member(obj, prop) => str_eq(prop.as_str(), "NODE_ENV") && is_process_env(&**obj),
        _ => false,
    }
}

fn require_spec<'a>(e: &'a Expr) -> (r: Option<&'a String>)
    ensures
        match r {
            Some(s) => model::require_arg(*e) == Some(s@),
            None => model::require_arg(*e) is None,
        },
    decreases *e,
{
    match e {
        Expr::Paren(inner) => require_spec(&**inner),
        Expr::Call(callee, args) => {
            if is_ident_named(strip(&**callee), "require") && args.len() >= 1 {
                lit_str(&args[0])
            } else {
                None
            }
        },
        _ => None,
    }
}

fn object_lit<'a>(e: &'a Expr) -> (r: Option<&'a Vec<Prop>>)
    ensures
        match r {
            Some(ps) => model::object_props(*e) == Some(ps@),
            None => model::object_props(*e) is None,
        },
    decreases *e,
{
    match e {
        Expr::Paren(inner) => object_lit(&**inner),
        Expr::ObjectLit(ps) => Some(ps),
        _ => None,
    }
}

fn callback<'a>(e: &'a Expr) -> (r: Option<(&'a Vec<String>, &'a Vec<Stmt>)>)
    ensures
        match r {
            Some(pb) => model::callback_parts(*e) == Some((pb.0@, pb.1@)),
            None => model::callback_parts(*e) is None,
        },
    decreases *e,
{
    match e {
        Expr::Paren(inner) => callback(&**inner),
        Expr::FnExpr(params, body) => Some((params, body)),
        _ => None,
    }
}

fn is_member_of_object(e: &Expr, mname: &str) -> (r: bool)
    ensures
        r == model::is_member_of_object(*e, mname@),
{
    match e {
        Expr::Member(obj, prop) => str_eq(prop.as_str(), mname)
            && is_ident_named(strip(&**obj), "Object"),
        _ => false,
    }
}

fn keys_spec<'a>(e: &'a Expr) -> (r: Option<&'a String>)
    ensures
        match r {
            Some(s) => model::keys_arg(*e) == Some(s@),
            None => model::keys_arg(*e) is None,
        },
    decreases *e,
{
    match e {
        Expr::Paren(inner) => keys_spec(&**inner),
        Expr::Call(callee, args) => {
            if is_member_of_object(strip(&**callee), "keys") && args.len() >= 1 {
                require_spec(&args[0])
            } else {
                None
            }
        },
        _ => None,
    }
}

fn defines_key_expr(a: &Analyzer, e: &Expr, key: &str) -> (r: bool)
    ensures
        r == model::defines_key_expr(a.st(), *e, key@),
    decreases *e,
{
    match e {
        Expr::Paren(inner) => defines_key_expr(a, &**inner, key),
        Expr::Call(callee, args) => {
            is_member_of_object(strip(&**callee), "defineProperty") && args.len() >= 2
                && is_export_ref(a, &args[0]) && is_ident_named(strip(&args[1]), key)
        },
        _ => false,
    }
}

fn body_defines_key(a: &Analyzer, ss: &Vec<Stmt>, key: &str) -> (r: bool)
    ensures
        r == model::body_defines_key(a.st(), ss@, key@),
{
    proof {
        assert(ss@.skip(0) =~= ss@);
    }
    let mut i: usize = 0;
    while i < ss.len()
        invariant
            0 <= i <= ss.len(),
            model::body_defines_key(a.st(), ss@, key@)
                == model::body_defines_key(a.st(), ss@.skip(i as int), key@),
        decreases ss.len() - i,
    {
        let hit = match &ss[i] {
            Stmt::Expr(e) => defines_key_expr(a, e, key),
            _ => false,
        };
        proof {
            assert(model::defines_key_stmt(a.st(), ss@[i as int], key@) == hit);
            assert(ss@.skip(i as int).drop_first() =~= ss@.skip(i as int + 1));
        }
        if hit {
            return true;
        }
        i += 1;
    }
    false
}

fn eq_guard(a: &Analyzer, l: &Expr, r: &Expr) -> (res: Option<bool>)
    ensures
        res == model::eq_guard(a.st(), *l, *r),
{
    if is_env_ref(a, l) {
        match lit_str(r) {
            Some(s) => Some(str_eq(s.as_str(), a.node_env.as_str())),
            None => None,
        }
    } else if is_env_ref(a, r) {
        match lit_str(l) {
            Some(s) => Some(str_eq(s.as_str(), a.node_env.as_str())),
            None => None,
        }
    } else {
        None
    }
}

fn guard_value(a: &Analyzer, test: &Expr) -> (r: Option<bool>)
    ensures
        r == model::guard_value(a.st(), *test),
    decreases *test,
{
    match test {
        Expr::Paren(inner) => guard_value(a, &**inner),
        Expr::StrictEq(l, rr) => eq_guard(a, &**l, &**rr),
        Expr::StrictNeq(l, rr) => match eq_guard(a, &**l, &**rr) {
            Some(b) => Some(!b),
            None => None,
        },
        _ => None,
    }
}

fn record_prop(a: &mut Analyzer, p: &Prop)
    ensures
        final(a).st() == model::record_prop(old(a).st(), *p),
{
    match p {
        Prop::KeyValue(k, _v) => a.named_exports.insert(k.as_str()),
        Prop::Shorthand(k) => a.named_exports.insert(k.as_str()),
        Prop::Spread(e) => {
            match require_spec(&**e) {
                Some(s) => a.reexports.insert(s.as_str()),
                None => {},
            }
        },
        Prop::Opaque => {},
    }
}

fn record_props(a: &mut Analyzer, ps: &Vec<Prop>)
    ensures
        final(a).st() == model::record_props(old(a).st(), ps@),
{
    proof {
        assert(ps@.skip(0) =~= ps@);
    }
    let mut i: usize = 0;
    while i < ps.len()
        invariant
            0 <= i <= ps.len(),
            model::record_props(old(a).st(), ps@)
                == model::record_props(a.st(), ps@.skip(i as int)),
        decreases ps.len() - i,
    {
        record_prop(a, &ps[i]);
        proof {
            assert(ps@.skip(i as int).drop_first() =~= ps@.skip(i as int + 1));
        }
        i += 1;
    }
}

fn record_key(a: &mut Analyzer, p: &Prop)
    ensures
        final(a).st() == model::record_key(old(a).st(), *p),
{
    match p {
        Prop::KeyValue(k, _v) => a.named_exports.insert(k.as_str()),
        Prop::Shorthand(k) => a.named_exports.insert(k.as_str()),
        _ => {},
    }
}

fn record_keys(a: &mut Analyzer, ps: &Vec<Prop>)
    ensures
        final(a).st() == model::record_keys(old(a).st(), ps@),
{
    proof {
        assert(ps@.skip(0) =~= ps@);
    }
    let mut i: usize = 0;
    while i < ps.len()
        invariant
            0 <= i <= ps.len(),
            model::record_keys(old(a).st(), ps@)
                == model::record_keys(a.st(), ps@.skip(i as int)),
        decreases ps.len() - i,
    {
        record_key(a, &ps[i]);
        proof {
            assert(ps@.skip(i as int).drop_first() =~= ps@.skip(i as int + 1));
        }
        i += 1;
    }
}

fn run_bind(a: &mut Analyzer, n: &String, v: &Expr)
    ensures
        final(a).st() == model::bind_ident(old(a).st(), n@, *v),
{
    if is_export_ref(a, v) {
        a.exports_alias.insert(n.as_str());
    } else if is_module_ref(a, v) {
        a.module_alias.insert(n.as_str());
    } else if is_env_ref(a, v) {
        a.env_alias.insert(n.as_str());
    }
}

fn run_decl(a: &mut Analyzer, d: &Declarator)
    ensures
        final(a).st() == model::run_decl(old(a).st(), *d),
{
    match &d.init {
        Some(v) => run_bind(a, &d.name, v),
        None => {},
    }
}

fn run_decls(a: &mut Analyzer, ds: &Vec<Declarator>)
    ensures
        final(a).st() == model::run_decls(old(a).st(), ds@),
{
    proof {
        assert(ds@.skip(0) =~= ds@);
    }
    let mut i: usize = 0;
    while i < ds.len()
        invariant
            0 <= i <= ds.len(),
            model::run_decls(old(a).st(), ds@)
                == model::run_decls(a.st(), ds@.skip(i as int)),
        decreases ds.len() - i,
    {
        run_decl(a, &ds[i]);
        proof {
            assert(ds@.skip(i as int).drop_first() =~= ds@.skip(i as int + 1));
        }
        i += 1;
    }
}

fn run_wholesale(a: &mut Analyzer, v: &Expr)
    ensures
        final(a).st() == model::wholesale(old(a).st(), *v),
    decreases *v,
{
    match v {
        Expr::Paren(inner) => run_wholesale(a, &**inner),
        Expr::ObjectLit(ps) => record_props(a, ps),
        _ => {
            match require_spec(v) {
                Some(s) => a.reexports.insert(s.as_str()),
                None => {},
            }
        },
    }
}

fn run_assign(a: &mut Analyzer, t: &Expr, v: &Expr)
    ensures
        final(a).st() == model::step_assign(old(a).st(), *t, *v),
    decreases *t,
{
    match t {
        Expr::Paren(inner) => run_assign(a, &**inner, v),
        _ => {
            if is_export_ref(a, t) {
                run_wholesale(a, v);
            } else {
                match t {
                    Expr::Member(obj, name) => {
                        if is_export_ref(a, &**obj) {
                            a.named_exports.insert(name.as_str());
                        }
                    },
                    Expr::ComputedMember(_obj, _key) => {},
                    Expr::Ident(n) => run_bind(a, n, v),
                    _ => {},
                }
            }
        },
    }
}

fn run_call(a: &mut Analyzer, callee: &Expr, args: &Vec<Expr>)
    ensures
        final(a).st() == model::step_call(old(a).st(), *callee, args@),
    decreases *callee, 0nat,
{
    match callee {
        Expr::Paren(inner) => run_call(a, &**inner, args),
        Expr::FnExpr(_params, body) => {
            if a.call_mode {
                run_list(a, body, true);
            }
        },
        Expr::Member(obj, mname) => {
            let on_object = is_ident_named(strip(&**obj), "Object");
            if on_object && str_eq(mname.as_str(), "defineProperty") && args.len() >= 2
                && is_export_ref(a, &args[0]) {
                match lit_str(&args[1]) {
                    Some(n) => a.named_exports.insert(n.as_str()),
                    None => {},
                }
            } else if on_object && str_eq(mname.as_str(), "defineProperties") && args.len() >= 2
                && is_export_ref(a, &args[0]) {
                match object_lit(&args[1]) {
                    Some(ps) => record_keys(a, ps),
                    None => {},
                }
            } else if str_eq(mname.as_str(), "forEach") || str_eq(mname.as_str(), "map") {
                match keys_spec(&**obj) {
                    Some(specifier) => {
                        if args.len() >= 1 {
                            match callback(&args[0]) {
                                Some(pb) => {
                                    if pb.0.len() >= 1 && body_defines_key(a, pb.1, pb.0[0].as_str()) {
                                        a.reexports.insert(specifier.as_str());
                                    }
                                },
                                None => {},
                            }
                        }
                    },
                    None => {},
                }
            }
        },
        _ => {},
    }
}

fn run_expr(a: &mut Analyzer, e: &Expr)
    ensures
        final(a).st() == model::step_expr(old(a).st(), *e),
    decreases *e, 0nat,
{
    match e {
        Expr::Paren(inner) => run_expr(a, &**inner),
        Expr::Assign(t, v) => run_assign(a, &**t, &**v),
        Expr::Call(callee, args) => run_call(a, &**callee, args),
        _ => {},
    }
}

fn run_stmt(a: &mut Analyzer, s: &Stmt)
    ensures
        final(a).st() == model::step(old(a).st(), *s),
    decreases *s, 1nat,
{
    match s {
        Stmt::Expr(e) => run_expr(a, e),
        Stmt::VarDecl(ds) => run_decls(a, ds),
        Stmt::If(test, cons, alt) => {
            match guard_value(a, test) {
                Some(true) => run_branch(a, &**cons),
                Some(false) => {
                    match alt {
                        Some(alt_stmt) => run_branch(a, &**alt_stmt),
                        None => {},
                    }
                },
                None => {},
            }
        },
        _ => {},
    }
}

fn run_branch(a: &mut Analyzer, b: &Stmt)
    ensures
        final(a).st() == model::walk_branch(old(a).st(), *b),
    decreases *b, 2nat,
{
    match b {
        Stmt::Block(ss) => run_list(a, ss, false),
        _ => run_stmt(a, b),
    }
}

fn run_list(a: &mut Analyzer, ss: &Vec<Stmt>, fn_body: bool)
    ensures
        final(a).st() == model::walk(old(a).st(), ss@, fn_body),
    decreases ss@, 0nat,
{
    proof {
        assert(ss@.skip(0) =~= ss@);
    }
    let mut i: usize = 0;
    while i < ss.len()
        invariant
            0 <= i <= ss.len(),
            model::walk(old(a).st(), ss@, fn_body)
                == model::walk(a.st(), ss@.skip(i as int), fn_body),
        decreases ss.len() - i,
    {
        let stop = fn_body && matches!(&ss[i], Stmt::Return);
        if stop {
            return;
        }
        run_stmt(a, &ss[i]);
        proof {
            assert(ss@.skip(i as int).drop_first() =~= ss@.skip(i as int + 1));
        }
        i += 1;
    }
}

impl CjsModule {
    /// Analyzes the module under the given environment label and wrapper
    /// mode, and returns its named exports and its re-exported module
    /// specifiers, each list in order of first discovery and free of
    /// duplicates.
    pub fn get_exports(&self, node_env: &str, call_mode: bool) -> (r: (Vec<String>, Vec<String>))
        ensures
            views_of(r.0@) == model::analyze(*self, node_env@, call_mode).named,
            views_of(r.1@) == model::analyze(*self, node_env@, call_mode).reexports,
    {
        let mut a = Analyzer {
            node_env: node_env.to_owned(),
            call_mode,
            exports_alias: StrSet::new(),
            module_alias: StrSet::new(),
            env_alias: StrSet::new(),
            named_exports: StrSet::new(),
            reexports: StrSet::new(),
        };
        proof {
            assert(a.st() =~= model::init_st(node_env@, call_mode));
        }
        run_list(&mut a, &self.body, false);
        let Analyzer { named_exports, reexports, .. } = a;
        (named_exports.into_vec(), reexports.into_vec())
    }
}

} // verus!
