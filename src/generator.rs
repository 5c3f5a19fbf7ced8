//! The generator: one registration-target expression in, the registration
//! statements of every instance out.
use vstd::prelude::*;
use quote::ToTokens;
use crate::expansion::{expand_target, expansion_text, SIMULATION_COUNT};

verus! {

/// The token text of the single Rust expression that `s` parses to, or the
/// parse diagnostic where `s` is not exactly one expression.
pub uninterp spec fn parsed_expression(s: Seq<char>) -> Result<Seq<char>, Seq<char>>;

/// Relies on `syn::parse_str::<syn::Expr>` to decide whether `s` is exactly
/// one Rust expression (an empty input is not), on `quote::ToTokens` to turn
/// the parsed expression back into its token text, and on the `Display` of
/// `syn::Error` for the diagnostic.
#[verifier::external_body]
fn parse_expression(s: &str) -> (r: Result<String, String>)
    ensures
        r is Ok <==> parsed_expression(s@) is Ok,
        r is Ok ==> parsed_expression(s@) == Ok::<Seq<char>, Seq<char>>(r->Ok_0@),
        r is Err ==> parsed_expression(s@) == Err::<Seq<char>, Seq<char>>(r->Err_0@),
        s@.len() == 0 ==> r is Err,
{
    match syn::parse_str::<syn::Expr>(s) {
        Ok(e) => Ok(e.to_token_stream().to_string()),
        Err(e) => Err(e.to_string()),
    }
}

/// Why the generator emitted nothing.
#[derive(Clone, Debug, PartialEq, Eq)]
pub enum ExpansionError {
    /// The argument is not exactly one Rust expression; holds the parser's
    /// diagnostic.
    NotAnExpression(String),
}

impl ExpansionError {
    /// The parser's diagnostic.
    pub fn message(&self) -> (r: &str)
        ensures
            match self {
                ExpansionError::NotAnExpression(m) => r@ == m@,
            },
    {
        match self {
            ExpansionError::NotAnExpression(m) => m.as_str(),
        }
    }
}

/// The registrations of instances `0 .. n` on the registration target
/// written in `tokens`, or an error where `tokens` is not one expression.
pub fn expand(tokens: &str, n: usize) -> (r: Result<String, ExpansionError>)
    ensures
        match parsed_expression(tokens@) {
            Ok(target) => r is Ok && r->Ok_0@ == expansion_text(target, n as nat),
            Err(m) => r matches Err(ExpansionError::NotAnExpression(e)) && e@ == m,
        },
        r is Err <==> parsed_expression(tokens@) is Err,
        tokens@.len() == 0 ==> r is Err,
{
    match parse_expression(tokens) {
        Ok(target) => Ok(expand_target(target.as_str(), n)),
        Err(m) => Err(ExpansionError::NotAnExpression(m)),
    }
}

/// The registrations of every simulation instance on the registration target
/// written in `tokens`.
pub fn simulations(tokens: &str) -> (r: Result<String, ExpansionError>)
    ensures
        match parsed_expression(tokens@) {
            Ok(target) => r is Ok && r->Ok_0@ == expansion_text(
                target,
                SIMULATION_COUNT as nat,
            ),
            Err(m) => r matches Err(ExpansionError::NotAnExpression(e)) && e@ == m,
        },
        r is Err <==> parsed_expression(tokens@) is Err,
        tokens@.len() == 0 ==> r is Err,
{
    expand(tokens, SIMULATION_COUNT)
}

} // verus!
