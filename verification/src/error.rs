//! The diagnostic type and the ghost result of a parse or build step.
use vstd::prelude::*;
use vstd::string::StringExecFns;

verus! {

/// A terminal diagnostic: the token position of the violation and a message.
#[derive(Clone, Debug)]
pub struct ParseError {
    pub pos: usize,
    pub msg: String,
}

impl ParseError {
    /// The diagnostic message, for callers that surface it.
    pub fn message(&self) -> (r: String)
        ensures
            r@ == self.msg@,
    {
        self.msg.clone()
    }
}

/// Builds a diagnostic at token position `pos`.
pub fn err_at(pos: usize, msg: &str) -> (e: ParseError)
    ensures
        e.pos == pos,
        e.msg@ == msg@,
{
    ParseError { pos, msg: msg.to_owned() }
}

/// The ghost outcome of a parse step: a value and the position after it,
/// or a diagnostic message and its position.
#[verifier::ext_equal]
pub enum Parsed<T> {
    Found(T, int),
    Fail(Seq<char>, int),
}

/// The ghost outcome of a build step: a value, or a diagnostic.
#[verifier::ext_equal]
pub enum Built<T> {
    Done(T),
    Fail(Seq<char>, int),
}

/// Prepends one element to the list carried by a ghost parse outcome.
pub open spec fn prepend_one<T>(x: T, p: Parsed<Seq<T>>) -> Parsed<Seq<T>> {
    match p {
        Parsed::Found(l, q) => Parsed::Found(seq![x] + l, q),
        Parsed::Fail(m, q) => Parsed::Fail(m, q),
    }
}

/// Prepends a whole list to the list carried by a ghost parse outcome.
pub open spec fn prepend_list<T>(acc: Seq<T>, p: Parsed<Seq<T>>) -> Parsed<Seq<T>> {
    match p {
        Parsed::Found(l, q) => Parsed::Found(acc + l, q),
        Parsed::Fail(m, q) => Parsed::Fail(m, q),
    }
}

/// Prepends a list to the list carried by a ghost build outcome.
pub open spec fn prepend_built<T>(acc: Seq<T>, b: Built<Seq<T>>) -> Built<Seq<T>> {
    match b {
        Built::Done(l) => Built::Done(acc + l),
        Built::Fail(m, q) => Built::Fail(m, q),
    }
}

/// Builds a diagnostic whose message is `prefix` followed by `name`.
pub fn err_concat(pos: usize, prefix: &str, name: &str) -> (e: ParseError)
    ensures
        e.pos == pos,
        e.msg@ == prefix@ + name@,
{
    let mut m = prefix.to_owned();
    m.append(name);
    ParseError { pos, msg: m }
}

/// Relates an executable parse result to its ghost outcome.
pub open spec fn parses_to<E: DeepView>(r: Result<(E, usize), ParseError>, p: Parsed<E::V>) -> bool {
    match r {
        Ok((v, q)) => p == Parsed::Found(v.deep_view(), q as int),
        Err(e) => p matches Parsed::Fail(m, q) && e.msg@ == m && e.pos == q,
    }
}

/// Relates an executable build result to its ghost outcome.
pub open spec fn builds_to<E: DeepView>(r: Result<E, ParseError>, p: Built<E::V>) -> bool {
    match r {
        Ok(v) => p == Built::Done(v.deep_view()),
        Err(e) => p matches Built::Fail(m, q) && e.msg@ == m && e.pos == q,
    }
}

} // verus!
