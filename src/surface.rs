//! The set of exported declarations, kept in declaration order with unique
//! names, and the rendering of a whole header from it.
use vstd::prelude::*;
use crate::render::{decl_texts, header_text, render_decl, render_prologue, Dialect};
use crate::text::concat;
use crate::types::{check_decl, decl_name, decl_types, first_offending, Decl};

verus! {

/// Why a header could not be produced.
#[derive(Debug)]
pub enum GenError {
    /// A second declaration was offered under a name already exported.
    DuplicateName { name: String },
    /// An exported declaration uses a type the dialect cannot spell.
    Unrepresentable { symbol: String, offending_type: String },
}

/// No two declarations share an exported name.
pub open spec fn names_unique(ds: Seq<Decl>) -> bool {
    forall|i: int, j: int|
        0 <= i < j < ds.len() ==> decl_name(#[trigger] ds[i]) != decl_name(#[trigger] ds[j])
}

/// Whether some declaration of `ds` is exported under `name`.
pub open spec fn has_name(ds: Seq<Decl>, name: Seq<char>) -> bool {
    exists|i: int| 0 <= i < ds.len() && decl_name(#[trigger] ds[i]) == name
}

/// The first declaration that uses a type without a C counterpart, as its
/// exported name and the offending type's spelling; `None` when there is none.
pub open spec fn first_failure(ds: Seq<Decl>) -> Option<(Seq<char>, Seq<char>)>
    decreases ds.len(),
{
    if ds.len() == 0 {
        None
    } else {
        match first_offending(decl_types(ds[0])) {
            Some(t) => Some((decl_name(ds[0]), t)),
            None => first_failure(ds.drop_first()),
        }
    }
}

/// The header for `ds` in dialect `d`, or the failure that prevents it.
pub open spec fn rendered(d: Dialect, ds: Seq<Decl>) -> Result<Seq<char>, (Seq<char>, Seq<char>)> {
    match first_failure(ds) {
        Some(e) => Err(e),
        None => Ok(header_text(d, ds)),
    }
}

/// Whether `r` is the outcome `rendered` describes.
pub open spec fn renders_as(r: Result<String, GenError>, expected: Result<Seq<char>, (Seq<char>, Seq<char>)>) -> bool {
    match expected {
        Ok(h) => r matches Ok(s) && s@ == h,
        Err((n, t)) => r matches Err(GenError::Unrepresentable { symbol, offending_type })
            && symbol@ == n && offending_type@ == t,
    }
}

/// Renders the whole header for `ds`: every declaration in order, after the
/// dialect's prologue. The text is built entirely before it is returned.
pub fn render_header(d: Dialect, ds: &Vec<Decl>) -> (r: Result<String, GenError>)
    ensures
        renders_as(r, rendered(d, ds@)),
{
    let mut i: usize = 0;
    assert(ds@.skip(0) =~= ds@);
    while i < ds.len()
        invariant
            i <= ds.len(),
            first_failure(ds@) == first_failure(ds@.skip(i as int)),
        decreases ds.len() - i,
    {
        assert(ds@.skip(i as int)[0] == ds@[i as int]);
        assert(ds@.skip(i as int).drop_first() =~= ds@.skip(i as int + 1));
        match check_decl(&ds[i]) {
            Some(t) => {
                let symbol = ds[i].name().clone();
                return Err(GenError::Unrepresentable { symbol, offending_type: t });
            },
            None => {},
        }
        i = i + 1;
    }
    assert(ds@.skip(i as int) =~= Seq::<Decl>::empty());
    let mut s = render_prologue(d);
    let ghost head = s@;
    let mut k: usize = 0;
    while k < ds.len()
        invariant
            k <= ds.len(),
            s@ == head + concat(decl_texts(d, ds@.take(k as int))),
        decreases ds.len() - k,
    {
        let t = render_decl(d, &ds[k]);
        s.append(t.as_str());
        proof {
            let p = decl_texts(d, ds@.take(k as int + 1));
            assert(p.drop_last() =~= decl_texts(d, ds@.take(k as int)));
            assert(s@ =~= head + concat(p));
        }
        k = k + 1;
    }
    assert(ds@.take(ds.len() as int) =~= ds@);
    Ok(s)
}

/// The exported declarations of a library, in declaration order.
pub struct AbiSurface {
    decls: Vec<Decl>,
}

impl View for AbiSurface {
    type V = Seq<Decl>;

    closed spec fn view(&self) -> Seq<Decl> {
        self.decls@
    }
}

impl AbiSurface {
    /// Every exported name is unique.
    pub open spec fn wf(&self) -> bool {
        names_unique(self@)
    }

    /// A surface with no declarations.
    pub fn new() -> (r: AbiSurface)
        ensures
            r@ == Seq::<Decl>::empty(),
            r.wf(),
    {
        AbiSurface { decls: Vec::new() }
    }

    /// Adds a declaration after those already there, unless its name is
    /// already exported.
    pub fn declare(&mut self, x: Decl) -> (r: Result<(), GenError>)
        requires
            old(self).wf(),
        ensures
            final(self).wf(),
            match r {
                Ok(()) => !has_name(old(self)@, decl_name(x)) && final(self)@ == old(self)@.push(x),
                Err(GenError::DuplicateName { name }) => has_name(old(self)@, decl_name(x))
                    && name@ == decl_name(x) && final(self)@ == old(self)@,
                Err(_) => false,
            },
    {
        let mut i: usize = 0;
        while i < self.decls.len()
            invariant
                i <= self.decls.len(),
                self.decls@ == old(self).decls@,
                self.wf(),
                forall|j: int| 0 <= j < i ==> decl_name(#[trigger] self.decls@[j]) != decl_name(x),
            decreases self.decls.len() - i,
        {
            if *self.decls[i].name() == *x.name() {
                return Err(GenError::DuplicateName { name: x.name().clone() });
            }
            i = i + 1;
        }
        self.decls.push(x);
        assert forall|a: int, b: int| 0 <= a < b < self@.len() implies decl_name(
            #[trigger] self@[a],
        ) != decl_name(#[trigger] self@[b]) by {
            if b == self@.len() - 1 {
                assert(self@[a] == old(self)@[a]);
            } else {
                assert(self@[a] == old(self)@[a]);
                assert(self@[b] == old(self)@[b]);
            }
        }
        Ok(())
    }

    /// The declarations, in declaration order.
    pub fn decls(&self) -> (r: &Vec<Decl>)
        ensures
            r@ == self@,
    {
        &self.decls
    }

    /// Renders this surface's header in dialect `d`.
    pub fn render(&self, d: Dialect) -> (r: Result<String, GenError>)
        ensures
            renders_as(r, rendered(d, self@)),
    {
        render_header(d, &self.decls)
    }
}

} // verus!
