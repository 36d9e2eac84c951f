//! The laws of the analysis.
//!
//! The public proof functions at the end state, over the model, the
//! properties the engine is designed around: the result is a pure function
//! of the module and the configuration; the two output lists are free of
//! duplicates; a name keeps the position of its first discovery; and every
//! reported name is backed by an export key that occurs in the module tree.

use vstd::prelude::*;
use crate::ast::{CjsModule, Declarator, Expr, Prop, Stmt};
use crate::ins;
use crate::model;
use crate::model::St;

verus! {

/// No entry of `s` occurs twice.
pub open spec fn distinct(s: Seq<Seq<char>>) -> bool {
    forall|i: int, j: int| 0 <= i < j < s.len() ==> s[i] != s[j]
}

/// How the analysis state may change across any visit: the two output
/// lists only grow at the end, and they stay duplicate-free.
pub open spec fn evolves(a: St, b: St) -> bool {
    &&& a.named.is_prefix_of(b.named)
    &&& a.reexports.is_prefix_of(b.reexports)
    &&& (distinct(a.named) ==> distinct(b.named))
    &&& (distinct(a.reexports) ==> distinct(b.reexports))
}

proof fn lemma_prefix_refl(s: Seq<Seq<char>>)
    ensures
        s.is_prefix_of(s),
{
    assert(s =~= s.subrange(0, s.len() as int));
}

proof fn lemma_evolves_refl(a: St)
    ensures
        evolves(a, a),
{
    lemma_prefix_refl(a.named);
    lemma_prefix_refl(a.reexports);
}

proof fn lemma_prefix_trans(a: Seq<Seq<char>>, b: Seq<Seq<char>>, c: Seq<Seq<char>>)
    requires
        a.is_prefix_of(b),
        b.is_prefix_of(c),
    ensures
        a.is_prefix_of(c),
{
    assert forall|i: int| 0 <= i < a.len() implies a[i] == c.subrange(0, a.len() as int)[i] by {
        assert(a[i] == b.subrange(0, a.len() as int)[i]);
        assert(b[i] == c.subrange(0, b.len() as int)[i]);
    }
    assert(a =~= c.subrange(0, a.len() as int));
}

proof fn lemma_evolves_trans(a: St, b: St, c: St)
    requires
        evolves(a, b),
        evolves(b, c),
    ensures
        evolves(a, c),
{
    lemma_prefix_trans(a.named, b.named, c.named);
    lemma_prefix_trans(a.reexports, b.reexports, c.reexports);
}

/// Inserting into an ordered set extends it at the end and keeps it
/// duplicate-free; an entry already present leaves it unchanged.
pub proof fn lemma_ins_extends(s: Seq<Seq<char>>, x: Seq<char>)
    ensures
        s.is_prefix_of(ins(s, x)),
        distinct(s) ==> distinct(ins(s, x)),
        s.contains(x) ==> ins(s, x) == s,
{
    lemma_prefix_refl(s);
    if !s.contains(x) {
        assert(s =~= s.push(x).subrange(0, s.len() as int));
        assert forall|i: int, j: int|
            0 <= i < j < s.push(x).len() && distinct(s) implies s.push(x)[i] != s.push(x)[j] by {
            if j == s.len() {
                assert(!s.contains(x));
                assert(s.push(x)[i] == s[i]);
            }
        }
    }
}

proof fn lemma_add_evolves(st: St, n: Seq<char>)
    ensures
        evolves(st, model::add_named(st, n)),
        evolves(st, model::add_reexport(st, n)),
        evolves(st, model::add_alias(st, n)),
        evolves(st, model::add_mod_alias(st, n)),
        evolves(st, model::add_env_alias(st, n)),
{
    lemma_ins_extends(st.named, n);
    lemma_ins_extends(st.reexports, n);
    lemma_prefix_refl(st.named);
    lemma_prefix_refl(st.reexports);
}

proof fn lemma_bind_evolves(st: St, n: Seq<char>, v: Expr)
    ensures
        evolves(st, model::bind_ident(st, n, v)),
        model::bind_ident(st, n, v).named == st.named,
        model::bind_ident(st, n, v).reexports == st.reexports,
{
    lemma_add_evolves(st, n);
    lemma_evolves_refl(st);
}

proof fn lemma_decls_evolve(st: St, ds: Seq<Declarator>)
    ensures
        evolves(st, model::run_decls(st, ds)),
        model::run_decls(st, ds).named == st.named,
        model::run_decls(st, ds).reexports == st.reexports,
    decreases ds.len(),
{
    lemma_evolves_refl(st);
    if ds.len() > 0 {
        match ds[0].init {
            Some(v) => lemma_bind_evolves(st, ds[0].name@, v),
            None => {},
        }
        lemma_decls_evolve(model::run_decl(st, ds[0]), ds.drop_first());
        lemma_evolves_trans(st, model::run_decl(st, ds[0]), model::run_decls(st, ds));
    }
}

proof fn lemma_record_prop_evolves(st: St, p: Prop)
    ensures
        evolves(st, model::record_prop(st, p)),
        evolves(st, model::record_key(st, p)),
{
    lemma_evolves_refl(st);
    match p {
        Prop::KeyValue(k, _v) => lemma_add_evolves(st, k@),
        Prop::Shorthand(k) => lemma_add_evolves(st, k@),
        Prop::Spread(e) => {
            match model::require_arg(*e) {
                Some(s) => lemma_add_evolves(st, s),
                None => {},
            }
        },
        Prop::Opaque => {},
    }
}

proof fn lemma_record_props_evolve(st: St, ps: Seq<Prop>)
    ensures
        evolves(st, model::record_props(st, ps)),
        evolves(st, model::record_keys(st, ps)),
    decreases ps.len(),
{
    lemma_evolves_refl(st);
    if ps.len() > 0 {
        lemma_record_prop_evolves(st, ps[0]);
        lemma_record_props_evolve(model::record_prop(st, ps[0]), ps.drop_first());
        lemma_record_props_evolve(model::record_key(st, ps[0]), ps.drop_first());
        lemma_evolves_trans(st, model::record_prop(st, ps[0]), model::record_props(st, ps));
        lemma_evolves_trans(st, model::record_key(st, ps[0]), model::record_keys(st, ps));
    }
}

proof fn lemma_wholesale_evolves(st: St, v: Expr)
    ensures
        evolves(st, model::wholesale(st, v)),
    decreases v,
{
    lemma_evolves_refl(st);
    match v {
        Expr::Paren(inner) => lemma_wholesale_evolves(st, *inner),
        Expr::ObjectLit(ps) => lemma_record_props_evolve(st, ps@),
        _ => {
            match model::require_arg(v) {
                Some(s) => lemma_add_evolves(st, s),
                None => {},
            }
        },
    }
}

proof fn lemma_assign_evolves(st: St, t: Expr, v: Expr)
    ensures
        evolves(st, model::step_assign(st, t, v)),
    decreases t,
{
    lemma_evolves_refl(st);
    match t {
        Expr::Paren(inner) => lemma_assign_evolves(st, *inner, v),
        _ => {
            if model::is_export_ref(st, t) {
                lemma_wholesale_evolves(st, v);
            } else {
                match t {
                    Expr::Member(_obj, name) => lemma_add_evolves(st, name@),
                    Expr::Ident(n) => lemma_bind_evolves(st, n@, v),
                    _ => {},
                }
            }
        },
    }
}

proof fn lemma_step_call_evolves(st: St, callee: Expr, args: Seq<Expr>)
    ensures
        evolves(st, model::step_call(st, callee, args)),
    decreases callee, 0nat,
{
    lemma_evolves_refl(st);
    match callee {
        Expr::Paren(inner) => lemma_step_call_evolves(st, *inner, args),
        Expr::FnExpr(_params, body) => {
            if st.call_mode {
                lemma_walk_evolves(st, body@, true);
            }
        },
        Expr::Member(obj, _mname) => {
            if args.len() >= 2 {
                match model::lit_of(args[1]) {
                    Some(n) => lemma_add_evolves(st, n),
                    None => {},
                }
                match model::object_props(args[1]) {
                    Some(ps) => lemma_record_props_evolve(st, ps),
                    None => {},
                }
            }
            match model::keys_arg(*obj) {
                Some(specifier) => lemma_add_evolves(st, specifier),
                None => {},
            }
        },
        _ => {},
    }
}

proof fn lemma_step_expr_evolves(st: St, e: Expr)
    ensures
        evolves(st, model::step_expr(st, e)),
    decreases e, 0nat,
{
    lemma_evolves_refl(st);
    match e {
        Expr::Paren(inner) => lemma_step_expr_evolves(st, *inner),
        Expr::Assign(t, v) => lemma_assign_evolves(st, *t, *v),
        Expr::Call(callee, args) => lemma_step_call_evolves(st, *callee, args@),
        _ => {},
    }
}

proof fn lemma_step_evolves(st: St, s: Stmt)
    ensures
        evolves(st, model::step(st, s)),
    decreases s, 1nat,
{
    lemma_evolves_refl(st);
    match s {
        Stmt::Expr(e) => lemma_step_expr_evolves(st, e),
        Stmt::VarDecl(ds) => lemma_decls_evolve(st, ds@),
        Stmt::If(test, cons, alt) => {
            match model::guard_value(st, test) {
                Some(true) => lemma_branch_evolves(st, *cons),
                Some(false) => {
                    match alt {
                        Some(a) => lemma_branch_evolves(st, *a),
                        None => {},
                    }
                },
                None => {},
            }
        },
        _ => {},
    }
}

proof fn lemma_branch_evolves(st: St, b: Stmt)
    ensures
        evolves(st, model::walk_branch(st, b)),
    decreases b, 2nat,
{
    match b {
        Stmt::Block(ss) => lemma_walk_evolves(st, ss@, false),
        _ => lemma_step_evolves(st, b),
    }
}

proof fn lemma_walk_evolves(st: St, ss: Seq<Stmt>, fn_body: bool)
    ensures
        evolves(st, model::walk(st, ss, fn_body)),
    decreases ss, 0nat,
{
    lemma_evolves_refl(st);
    if ss.len() != 0 && !(fn_body && ss[0] is Return) {
        lemma_step_evolves(st, ss[0]);
        lemma_walk_evolves(model::step(st, ss[0]), ss.drop_first(), fn_body);
        lemma_evolves_trans(st, model::step(st, ss[0]), model::walk(st, ss, fn_body));
    }
}

/// Visiting a statement list piece by piece is the same as visiting it in
/// one pass: the walk distributes over concatenation. (Truncation after
/// `return` applies only inside wrapper bodies, not at the top level.)
pub proof fn lemma_walk_append(st: St, a: Seq<Stmt>, b: Seq<Stmt>)
    ensures
        model::walk(st, a + b, false) == model::walk(model::walk(st, a, false), b, false),
    decreases a.len(),
{
    if a.len() == 0 {
        assert(a + b =~= b);
    } else {
        assert((a + b)[0] == a[0]);
        assert((a + b).drop_first() =~= a.drop_first() + b);
        lemma_walk_append(model::step(st, a[0]), a.drop_first(), b);
    }
}

/// The export keys one object-literal property can contribute.
pub open spec fn prop_key(p: Prop) -> Set<Seq<char>> {
    match p {
        Prop::KeyValue(k, _v) => set![k@],
        Prop::Shorthand(k) => set![k@],
        _ => Set::empty(),
    }
}

pub open spec fn props_keys(ps: Seq<Prop>) -> Set<Seq<char>>
    decreases ps.len(),
{
    if ps.len() == 0 {
        Set::empty()
    } else {
        prop_key(ps[0]).union(props_keys(ps.drop_first()))
    }
}

/// The static member name of an assignment target, if it has one.
pub open spec fn member_key(t: Expr) -> Set<Seq<char>>
    decreases t,
{
    match t {
        Expr::Paren(inner) => member_key(*inner),
        Expr::Member(_obj, name) => set![name@],
        _ => Set::empty(),
    }
}

/// The literal keys of an object literal, if `v` is one.
pub open spec fn objlit_keys(v: Expr) -> Set<Seq<char>> {
    match model::object_props(v) {
        Some(ps) => props_keys(ps),
        None => Set::empty(),
    }
}

/// The string literal `e` holds, as a key set.
pub open spec fn lit_key(e: Expr) -> Set<Seq<char>> {
    match model::lit_of(e) {
        Some(s) => set![s],
        None => Set::empty(),
    }
}

pub open spec fn call_keys(callee: Expr, args: Seq<Expr>) -> Set<Seq<char>>
    decreases callee, 0nat,
{
    match callee {
        Expr::Paren(inner) => call_keys(*inner, args),
        Expr::FnExpr(_params, body) => list_keys(body@),
        Expr::Member(_obj, _mname) => if args.len() >= 2 {
            lit_key(args[1]).union(objlit_keys(args[1]))
        } else {
            Set::empty()
        },
        _ => Set::empty(),
    }
}

pub open spec fn expr_keys(e: Expr) -> Set<Seq<char>>
    decreases e, 0nat,
{
    match e {
        Expr::Paren(inner) => expr_keys(*inner),
        Expr::Assign(t, v) => member_key(*t).union(objlit_keys(*v)),
        Expr::Call(callee, args) => call_keys(*callee, args@),
        _ => Set::empty(),
    }
}

pub open spec fn stmt_keys(s: Stmt) -> Set<Seq<char>>
    decreases s, 1nat,
{
    match s {
        Stmt::Expr(e) => expr_keys(e),
        Stmt::If(_test, cons, alt) => branch_keys(*cons).union(
            match alt {
                Some(a) => branch_keys(*a),
                None => Set::empty(),
            },
        ),
        _ => Set::empty(),
    }
}

pub open spec fn branch_keys(b: Stmt) -> Set<Seq<char>>
    decreases b, 2nat,
{
    match b {
        Stmt::Block(ss) => list_keys(ss@),
        _ => stmt_keys(b),
    }
}

pub open spec fn list_keys(ss: Seq<Stmt>) -> Set<Seq<char>>
    decreases ss, 0nat,
{
    if ss.len() == 0 {
        Set::empty()
    } else {
        stmt_keys(ss[0]).union(list_keys(ss.drop_first()))
    }
}

/// Every export key that occurs, in a recordable position, anywhere in
/// the module tree.
pub open spec fn module_keys(m: CjsModule) -> Set<Seq<char>> {
    list_keys(m.body@)
}

/// Every name in `b.named` was in `a.named` already or comes out of `ks`.
pub open spec fn sound_to(a: St, b: St, ks: Set<Seq<char>>) -> bool {
    forall|n: Seq<char>| b.named.contains(n) ==> a.named.contains(n) || ks.contains(n)
}

proof fn lemma_sound_trans(a: St, b: St, c: St, k1: Set<Seq<char>>, k2: Set<Seq<char>>)
    requires
        sound_to(a, b, k1),
        sound_to(b, c, k2),
    ensures
        sound_to(a, c, k1.union(k2)),
{
}

proof fn lemma_sound_weaken(a: St, b: St, k1: Set<Seq<char>>, k2: Set<Seq<char>>)
    requires
        sound_to(a, b, k1),
        k1.subset_of(k2),
    ensures
        sound_to(a, b, k2),
{
}

proof fn lemma_ins_sound(s: Seq<Seq<char>>, x: Seq<char>, n: Seq<char>)
    requires
        ins(s, x).contains(n),
    ensures
        s.contains(n) || n == x,
{
    if !s.contains(x) {
        let i = choose|i: int| 0 <= i < s.push(x).len() && s.push(x)[i] == n;
        if i < s.len() {
            assert(s[i] == n);
        }
    }
}

proof fn lemma_add_named_sound(st: St, x: Seq<char>)
    ensures
        sound_to(st, model::add_named(st, x), set![x]),
{
    assert forall|n: Seq<char>| model::add_named(st, x).named.contains(n)
        implies st.named.contains(n) || set![x].contains(n) by {
        lemma_ins_sound(st.named, x, n);
    }
}

proof fn lemma_record_prop_sound(st: St, p: Prop)
    ensures
        sound_to(st, model::record_prop(st, p), prop_key(p)),
        sound_to(st, model::record_key(st, p), prop_key(p)),
{
    match p {
        Prop::KeyValue(k, _v) => lemma_add_named_sound(st, k@),
        Prop::Shorthand(k) => lemma_add_named_sound(st, k@),
        _ => {},
    }
}

proof fn lemma_record_props_sound(st: St, ps: Seq<Prop>)
    ensures
        sound_to(st, model::record_props(st, ps), props_keys(ps)),
        sound_to(st, model::record_keys(st, ps), props_keys(ps)),
    decreases ps.len(),
{
    if ps.len() > 0 {
        lemma_record_prop_sound(st, ps[0]);
        lemma_record_props_sound(model::record_prop(st, ps[0]), ps.drop_first());
        lemma_record_props_sound(model::record_key(st, ps[0]), ps.drop_first());
        lemma_sound_trans(
            st,
            model::record_prop(st, ps[0]),
            model::record_props(st, ps),
            prop_key(ps[0]),
            props_keys(ps.drop_first()),
        );
        lemma_sound_trans(
            st,
            model::record_key(st, ps[0]),
            model::record_keys(st, ps),
            prop_key(ps[0]),
            props_keys(ps.drop_first()),
        );
    }
}

proof fn lemma_wholesale_sound(st: St, v: Expr)
    ensures
        sound_to(st, model::wholesale(st, v), objlit_keys(v)),
    decreases v,
{
    match v {
        Expr::Paren(inner) => lemma_wholesale_sound(st, *inner),
        Expr::ObjectLit(ps) => lemma_record_props_sound(st, ps@),
        _ => {},
    }
}

proof fn lemma_assign_sound(st: St, t: Expr, v: Expr)
    ensures
        sound_to(st, model::step_assign(st, t, v), member_key(t).union(objlit_keys(v))),
    decreases t,
{
    match t {
        Expr::Paren(inner) => lemma_assign_sound(st, *inner, v),
        _ => {
            if model::is_export_ref(st, t) {
                lemma_wholesale_sound(st, v);
            } else {
                match t {
                    Expr::Member(_obj, name) => lemma_add_named_sound(st, name@),
                    Expr::Ident(n) => lemma_bind_evolves(st, n@, v),
                    _ => {},
                }
            }
        },
    }
}

proof fn lemma_step_call_sound(st: St, callee: Expr, args: Seq<Expr>)
    ensures
        sound_to(st, model::step_call(st, callee, args), call_keys(callee, args)),
    decreases callee, 0nat,
{
    match callee {
        Expr::Paren(inner) => lemma_step_call_sound(st, *inner, args),
        Expr::FnExpr(_params, body) => {
            if st.call_mode {
                lemma_walk_sound(st, body@, true);
            }
        },
        Expr::Member(_obj, _mname) => {
            if args.len() >= 2 {
                match model::lit_of(args[1]) {
                    Some(n) => lemma_add_named_sound(st, n),
                    None => {},
                }
                match model::object_props(args[1]) {
                    Some(ps) => lemma_record_props_sound(st, ps),
                    None => {},
                }
            }
        },
        _ => {},
    }
}

proof fn lemma_step_expr_sound(st: St, e: Expr)
    ensures
        sound_to(st, model::step_expr(st, e), expr_keys(e)),
    decreases e, 0nat,
{
    match e {
        Expr::Paren(inner) => lemma_step_expr_sound(st, *inner),
        Expr::Assign(t, v) => lemma_assign_sound(st, *t, *v),
        Expr::Call(callee, args) => lemma_step_call_sound(st, *callee, args@),
        _ => {},
    }
}

proof fn lemma_step_sound(st: St, s: Stmt)
    ensures
        sound_to(st, model::step(st, s), stmt_keys(s)),
    decreases s, 1nat,
{
    match s {
        Stmt::Expr(e) => lemma_step_expr_sound(st, e),
        Stmt::VarDecl(ds) => {
            lemma_decls_evolve(st, ds@);
        },
        Stmt::If(test, cons, alt) => {
            match model::guard_value(st, test) {
                Some(true) => lemma_branch_sound(st, *cons),
                Some(false) => {
                    match alt {
                        Some(a) => lemma_branch_sound(st, *a),
                        None => {},
                    }
                },
                None => {},
            }
        },
        _ => {},
    }
}

proof fn lemma_branch_sound(st: St, b: Stmt)
    ensures
        sound_to(st, model::walk_branch(st, b), branch_keys(b)),
    decreases b, 2nat,
{
    match b {
        Stmt::Block(ss) => lemma_walk_sound(st, ss@, false),
        _ => lemma_step_sound(st, b),
    }
}

proof fn lemma_walk_sound(st: St, ss: Seq<Stmt>, fn_body: bool)
    ensures
        sound_to(st, model::walk(st, ss, fn_body), list_keys(ss)),
    decreases ss, 0nat,
{
    if ss.len() != 0 && !(fn_body && ss[0] is Return) {
        lemma_step_sound(st, ss[0]);
        lemma_walk_sound(model::step(st, ss[0]), ss.drop_first(), fn_body);
        lemma_sound_trans(
            st,
            model::step(st, ss[0]),
            model::walk(st, ss, fn_body),
            stmt_keys(ss[0]),
            list_keys(ss.drop_first()),
        );
    }
}

/// Soundness bias: every name an analysis reports is backed by an export
/// key that occurs, in a recordable position, in the module tree itself —
/// the engine never invents a name.
pub proof fn lemma_soundness(m: CjsModule, env: Seq<char>, call_mode: bool)
    ensures
        forall|n: Seq<char>|
            model::analyze(m, env, call_mode).named.contains(n) ==> module_keys(m).contains(n),
{
    lemma_walk_sound(model::init_st(env, call_mode), m.body@, false);
}

/// Determinism: the analysis is a pure function of the module tree and
/// the configuration, so any two results of analyzing the same tree under
/// the same configuration are identical, entry for entry and in order.
pub proof fn lemma_deterministic(
    m: CjsModule,
    env: Seq<char>,
    call_mode: bool,
    first: (Seq<Seq<char>>, Seq<Seq<char>>),
    second: (Seq<Seq<char>>, Seq<Seq<char>>),
)
    requires
        first.0 == model::analyze(m, env, call_mode).named,
        first.1 == model::analyze(m, env, call_mode).reexports,
        second.0 == model::analyze(m, env, call_mode).named,
        second.1 == model::analyze(m, env, call_mode).reexports,
    ensures
        first == second,
{
}

/// The two output lists of an analysis hold no entry twice: a duplicate
/// assignment to an already recorded name collapses silently.
pub proof fn lemma_no_duplicates(m: CjsModule, env: Seq<char>, call_mode: bool)
    ensures
        distinct(model::analyze(m, env, call_mode).named),
        distinct(model::analyze(m, env, call_mode).reexports),
{
    lemma_walk_evolves(model::init_st(env, call_mode), m.body@, false);
}

/// Order preservation: the names recorded while visiting the first `k`
/// top-level statements stand unchanged, as a prefix, in the final list;
/// later statements (including duplicate assignments) never reorder them.
pub proof fn lemma_order_preserved(m: CjsModule, env: Seq<char>, call_mode: bool, k: int)
    requires
        0 <= k <= m.body@.len(),
    ensures
        model::walk(model::init_st(env, call_mode), m.body@.take(k), false).named.is_prefix_of(
            model::analyze(m, env, call_mode).named,
        ),
{
    let st0 = model::init_st(env, call_mode);
    let a = m.body@.take(k);
    let b = m.body@.skip(k);
    assert(m.body@ =~= a + b);
    lemma_walk_append(st0, a, b);
    lemma_walk_evolves(model::walk(st0, a, false), b, false);
}

} // verus!
