//! Removal of drops of variables of type never.
//!
//! A body may hold statements `drop(v)` where `v` has the type never. Such
//! a statement does nothing: this pass replaces each by `nop`, and leaves
//! every other statement as it is.

use vstd::prelude::*;

verus! {

/// The type of a variable, as far as this pass reads it.
#[derive(Clone, Copy, Debug, PartialEq, Eq, Structural)]
pub enum Ty {
    Never,
    Other,
}

impl Ty {
    /// Whether this is the type never.
    pub fn is_never(&self) -> (b: bool)
        ensures
            b == (*self is Never),
    {
        match self {
            Ty::Never => true,
            Ty::Other => false,
        }
    }
}

/// A local variable of a body.
#[derive(Debug)]
pub struct Var {
    pub name: Option<String>,
    pub ty: Ty,
}

/// One step from a place to a place inside it.
#[derive(Clone, Copy, Debug, PartialEq, Eq, Structural)]
pub enum ProjectionElem {
    Deref,
    Field(usize),
}

/// A place: a local variable, by its index in the body's locals, and a path
/// into it.
#[derive(Debug)]
pub struct Place {
    pub var_id: usize,
    pub projection: Vec<ProjectionElem>,
}

/// Where a statement comes from in the source.
#[derive(Clone, Copy, Debug, PartialEq, Eq, Structural)]
pub struct Meta {
    pub line: usize,
}

/// What a statement does.
#[derive(Debug)]
pub enum RawStatement {
    FakeRead(Place),
    Drop(Place),
    Panic,
    Return,
    Break(usize),
    Continue(usize),
    Nop,
    Sequence(Box<Statement>, Box<Statement>),
    Loop(Box<Statement>),
}

/// A statement.
#[derive(Debug)]
pub struct Statement {
    pub meta: Meta,
    pub content: RawStatement,
}

/// A body: its local variables and its statement.
#[derive(Debug)]
pub struct Body {
    pub locals: Vec<Var>,
    pub body: Statement,
}

/// Whether the local variable that the statement itself drops, if it drops
/// one, is among `locals`.
pub open spec fn dropped_local_declared(locals: Seq<Var>, st: Statement) -> bool {
    st.content matches RawStatement::Drop(p) ==> p.projection@.len() == 0 ==> p.var_id
        < locals.len()
}

/// Whether the statement is the drop of a whole local variable whose type
/// is never.
pub open spec fn drops_never(locals: Seq<Var>, st: Statement) -> bool {
    st.content matches RawStatement::Drop(p) && p.projection@.len() == 0 && locals[p.var_id as int].ty
        is Never
}

/// The statement that stands for `st` after the pass, where `st` is no
/// sequence and no loop.
pub open spec fn filtered(locals: Seq<Var>, st: Statement) -> Statement {
    if drops_never(locals, st) {
        Statement { meta: st.meta, content: RawStatement::Nop }
    } else {
        st
    }
}

/// Replaces the statement by `nop` if it is a `drop(x)` where `x` is a
/// local variable whose type is never, and leaves it unchanged otherwise.
pub fn transform_st(locals: &Vec<Var>, st: Statement) -> (out: Statement)
    requires
        dropped_local_declared(locals@, st),
    ensures
        out == filtered(locals@, st),
{
    let filter = match &st.content {
        RawStatement::Drop(p) => {
            if p.projection.len() == 0 {
                let var = &locals[p.var_id];
                var.ty.is_never()
            } else {
                false
            }
        },
        _ => false,
    };
    if filter {
        Statement { meta: st.meta, content: RawStatement::Nop }
    } else {
        st
    }
}

/// Whether every local variable that a statement inside `st` drops is
/// among `locals`.
pub open spec fn locals_declared(locals: Seq<Var>, st: Statement) -> bool
    decreases st,
{
    match st.content {
        RawStatement::Sequence(first, second) => locals_declared(locals, *first)
            && locals_declared(locals, *second),
        RawStatement::Loop(inner) => locals_declared(locals, *inner),
        _ => dropped_local_declared(locals, st),
    }
}

/// The statement `st` after the pass: each statement inside it is
/// filtered, and the sequences and loops around them stay.
pub open spec fn transformed(locals: Seq<Var>, st: Statement) -> Statement
    decreases st,
{
    match st.content {
        RawStatement::Sequence(first, second) => Statement {
            meta: st.meta,
            content: RawStatement::Sequence(
                Box::new(transformed(locals, *first)),
                Box::new(transformed(locals, *second)),
            ),
        },
        RawStatement::Loop(inner) => Statement {
            meta: st.meta,
            content: RawStatement::Loop(Box::new(transformed(locals, *inner))),
        },
        _ => filtered(locals, st),
    }
}

/// Applies `transform_st` to each statement inside `st`.
pub fn transform_statements(locals: &Vec<Var>, st: Statement) -> (out: Statement)
    requires
        locals_declared(locals@, st),
    ensures
        out == transformed(locals@, st),
    decreases st,
{
    match st.content {
        RawStatement::Sequence(first, second) => {
            let first = transform_statements(locals, *first);
            let second = transform_statements(locals, *second);
            Statement {
                meta: st.meta,
                content: RawStatement::Sequence(Box::new(first), Box::new(second)),
            }
        },
        RawStatement::Loop(inner) => {
            let inner = transform_statements(locals, *inner);
            Statement { meta: st.meta, content: RawStatement::Loop(Box::new(inner)) }
        },
        content => transform_st(locals, Statement { meta: st.meta, content }),
    }
}

/// `take` of the crate take_mut: the closure is called once, on the value
/// behind the reference, and what it returns is put behind the reference.
pub assume_specification<T, F>[ take_mut::take::<T, F> ](mut_ref: &mut T, closure: F) where
    F: FnOnce(T) -> T,

    requires
        closure.requires((*old(mut_ref),)),
    ensures
        closure.ensures((*old(mut_ref),), *final(mut_ref)),
;

/// Whether `transform` can run on the body.
pub open spec fn body_well_formed(b: Body) -> bool {
    locals_declared(b.locals@, b.body)
}

/// Removes the drops of variables of type never from one body.
pub fn transform_body(b: &mut Body)
    requires
        body_well_formed(*old(b)),
    ensures
        final(b).locals == old(b).locals,
        final(b).body == transformed(old(b).locals@, old(b).body),
{
    let locals = &b.locals;
    let pass = |st: Statement| -> (out: Statement)
        requires
            locals_declared(locals@, st),
        ensures
            out == transformed(locals@, st),
        {
            transform_statements(locals, st)
        };
    take_mut::take(&mut b.body, pass);
}

/// A declaration of a function or of a global: its name and, where it has
/// one, its body.
#[derive(Debug)]
pub struct Decl {
    pub name: String,
    pub body: Option<Body>,
}

/// Whether `transform` can run on the declaration.
pub open spec fn decl_well_formed(d: Decl) -> bool {
    d.body matches Some(b) ==> body_well_formed(b)
}

/// The declaration after the pass.
pub open spec fn transformed_decl(d: Decl) -> Decl {
    match d.body {
        Some(b) => Decl {
            name: d.name,
            body: Some(Body { locals: b.locals, body: transformed(b.locals@, b.body) }),
        },
        None => d,
    }
}

/// The declarations after the pass.
pub open spec fn transformed_decls(decls: Seq<Decl>) -> Seq<Decl> {
    Seq::new(decls.len(), |i: int| transformed_decl(decls[i]))
}

/// Removes the drops of variables of type never from the bodies of the
/// declarations.
pub fn transform_decls(decls: &mut Vec<Decl>)
    requires
        forall|i: int| 0 <= i < old(decls)@.len() ==> decl_well_formed(#[trigger] old(decls)@[i]),
    ensures
        final(decls)@ == transformed_decls(old(decls)@),
{
    let mut i: usize = 0;
    while i < decls.len()
        invariant
            i <= decls.len(),
            decls@.len() == old(decls)@.len(),
            forall|j: int| 0 <= j < i ==> #[trigger] decls@[j] == transformed_decl(old(decls)@[j]),
            forall|j: int| i <= j < decls@.len() ==> #[trigger] decls@[j] == old(decls)@[j],
            forall|j: int| 0 <= j < decls@.len() ==> decl_well_formed(#[trigger] old(decls)@[j]),
        decreases decls.len() - i,
    {
        let decl = &mut decls[i];
        match &mut decl.body {
            Some(b) => {
                transform_body(b);
            },
            None => {},
        }
        i = i + 1;
    }
}

/// Removes the drops of variables of type never from the bodies of the
/// functions and of the globals.
pub fn transform(funs: &mut Vec<Decl>, globals: &mut Vec<Decl>)
    requires
        forall|i: int| 0 <= i < old(funs)@.len() ==> decl_well_formed(#[trigger] old(funs)@[i]),
        forall|i: int|
            0 <= i < old(globals)@.len() ==> decl_well_formed(#[trigger] old(globals)@[i]),
    ensures
        final(funs)@ == transformed_decls(old(funs)@),
        final(globals)@ == transformed_decls(old(globals)@),
{
    transform_decls(funs);
    transform_decls(globals);
}

} // verus!
