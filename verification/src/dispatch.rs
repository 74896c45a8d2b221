//! Closed-set dispatch planning. The set of light-client implementations
//! is fixed at build time, so capability calls are routed by an exhaustive
//! match over a tagged union, generated once from the union's variant
//! list. This module is the decision core of that generator: it checks the
//! annotated type and produces the routing plan, failing at generation
//! time — never at run time — when the type is not an enumeration or the
//! required host metadata is missing.

use vstd::prelude::*;

verus! {

/// What kind of type the annotated declaration is.
#[derive(Debug)]
pub enum DeriveData {
    /// An enumeration with the given variant names, in declaration order.
    Enumeration(Vec<String>),
    /// A struct declaration.
    Structure,
    /// An untagged union declaration.
    RawUnion,
}

/// The host metadata the generator needs: which tagged unions stand for
/// the client state and the consensus state.
#[derive(Debug)]
pub struct HostOpts {
    pub client_state: String,
    pub consensus_state: String,
}

/// The annotated type as the generator sees it.
#[derive(Debug)]
pub struct DeriveInput {
    pub ident: String,
    pub data: DeriveData,
    pub host_opts: Option<HostOpts>,
}

/// Why generation was refused.
#[derive(Debug)]
pub enum DeriveError {
    /// The type lacks the host annotation naming the two state unions.
    MissingHostAttribute,
    /// The annotated type is not an enumeration.
    NotAnEnum,
}

/// The routing plan: for each capability-set method, the dispatch body
/// matches on these variants and forwards to that variant's
/// implementation.
#[derive(Debug)]
pub struct DispatchPlan {
    pub enum_ident: String,
    pub client_state: String,
    pub consensus_state: String,
    pub variants: Vec<String>,
}

/// Copies a list of variant names.
fn clone_names(names: &Vec<String>) -> (r: Vec<String>)
    ensures
        r@ == names@,
{
    let mut out: Vec<String> = Vec::new();
    let mut i: usize = 0;
    while i < names.len()
        invariant
            i <= names@.len(),
            out@ =~= names@.take(i as int),
        decreases names@.len() - i,
    {
        out.push(names[i].clone());
        i = i + 1;
    }
    proof {
        assert(out@ =~= names@);
    }
    out
}

/// Synthesizes the routing plan for a validated enumeration.
pub fn derive_impl(ident: &String, variants: &Vec<String>, opts: &HostOpts) -> (r: DispatchPlan)
    ensures
        r.enum_ident@ == ident@,
        r.client_state@ == opts.client_state@,
        r.consensus_state@ == opts.consensus_state@,
        r.variants@ == variants@,
{
    DispatchPlan {
        enum_ident: ident.clone(),
        client_state: opts.client_state.clone(),
        consensus_state: opts.consensus_state.clone(),
        variants: clone_names(variants),
    }
}

/// The generator's entry point: refuses a type without the host metadata,
/// then a type that is not an enumeration, and otherwise plans one
/// dispatch arm per variant, in declaration order.
pub fn client_state_macro_derive(input: &DeriveInput) -> (r: Result<DispatchPlan, DeriveError>)
    ensures
        input.host_opts is None ==> r matches Err(DeriveError::MissingHostAttribute),
        input.host_opts is Some && !(input.data is Enumeration) ==> r matches Err(
            DeriveError::NotAnEnum,
        ),
        input.host_opts is Some && input.data is Enumeration ==> (r matches Ok(p)
            && p.enum_ident@ == input.ident@ && p.client_state@
            == input.host_opts->Some_0.client_state@ && p.consensus_state@
            == input.host_opts->Some_0.consensus_state@ && p.variants@
            == input.data->Enumeration_0@),
{
    let opts = match &input.host_opts {
        Some(o) => o,
        None => {
            return Err(DeriveError::MissingHostAttribute);
        },
    };
    match &input.data {
        DeriveData::Enumeration(variants) => Ok(derive_impl(&input.ident, variants, opts)),
        DeriveData::Structure => Err(DeriveError::NotAnEnum),
        DeriveData::RawUnion => Err(DeriveError::NotAnEnum),
    }
}

} // verus!
