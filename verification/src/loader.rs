//! From a fetched response to a parsed document.
//!
//! The fetch and the parser run are the host's business. What comes back
//! from them is judged here: only the body of a response with a success
//! status is to be parsed, and only an accepted tree is kept, together with
//! the measure of its intrinsic size. A rejection becomes a `ParseError`
//! with the parser's own wording.

use crate::error::Failure;
use crate::measure::{measure, measure_of, Measure};
use vstd::prelude::*;

verus! {

/// The parsed tree of `usvg`. Nothing inside it is visible here.
#[verifier::external_type_specification]
#[verifier::external_body]
pub struct ExTree(vello_svg::usvg::Tree);

/// The parse error of `usvg`. Nothing inside it is visible here.
#[verifier::external_type_specification]
#[verifier::external_body]
pub struct ExTreeError(vello_svg::usvg::Error);

/// The bit patterns of the width and the height that `usvg::Tree::size`
/// gives for a tree, in this order. They depend on the tree alone.
pub uninterp spec fn intrinsic_bits(tree: vello_svg::usvg::Tree) -> (u32, u32);

/// The measure of a tree's intrinsic size.
pub open spec fn intrinsic_measure(tree: vello_svg::usvg::Tree) -> Measure {
    measure_of(intrinsic_bits(tree).0, intrinsic_bits(tree).1)
}

/// The text that the `Display` impl of `usvg::Error` writes for an error.
/// It depends on the error alone.
pub uninterp spec fn reason_text(error: vello_svg::usvg::Error) -> Seq<char>;

/// Calls `usvg::Tree::size`, then `width` and `height` on the result, and
/// `to_bits` on either number. The claim is that the result is the bit
/// patterns of the tree's intrinsic size.
#[verifier::external_body]
fn side_bits(tree: &vello_svg::usvg::Tree) -> (bits: (u32, u32))
    ensures
        bits == intrinsic_bits(*tree),
{
    let size = tree.size();
    (size.width().to_bits(), size.height().to_bits())
}

/// Calls `to_string` on a `usvg::Error`, which formats it with its
/// `Display` impl. The claim is that the result is the error's text.
#[verifier::external_body]
fn reason_of(error: &vello_svg::usvg::Error) -> (reason: String)
    ensures
        reason@ == reason_text(*error),
{
    error.to_string()
}

/// What a fetch came back with.
#[derive(Debug, PartialEq, Eq)]
pub enum Fetched {
    /// No response arrived, or its body could not be read as text.
    NoResponse,
    /// A response arrived with this status code and this body.
    Response { status: u16, body: String },
}

/// A status code in the success class, 200 to 299.
pub open spec fn is_success(status: u16) -> bool {
    200 <= status <= 299
}

/// The text to parse, or the failure the fetch amounts to.
pub open spec fn body_of(fetched: Fetched) -> Result<String, Failure> {
    match fetched {
        Fetched::Response { status, body } if is_success(status) => Ok(body),
        _ => Err(Failure::NetworkError),
    }
}

/// Judges a fetch: the body of a response with a success status is passed
/// on, everything else is a `NetworkError`.
pub fn accept(fetched: Fetched) -> (text: Result<String, Failure>)
    ensures
        text == body_of(fetched),
{
    match fetched {
        Fetched::Response { status, body } => {
            if 200 <= status && status <= 299 {
                Ok(body)
            } else {
                Err(Failure::NetworkError)
            }
        },
        Fetched::NoResponse => Err(Failure::NetworkError),
    }
}

/// A parsed document and the measure of its intrinsic size.
pub struct Document {
    tree: vello_svg::usvg::Tree,
    measure: Measure,
}

impl Document {
    #[verifier::type_invariant]
    spec fn inv(&self) -> bool {
        &&& self.measure == intrinsic_measure(self.tree)
        &&& self.measure.size.width >= 1
        &&& self.measure.size.height >= 1
        &&& self.measure.places <= 31
    }

    /// The parsed tree.
    pub closed spec fn spec_tree(&self) -> vello_svg::usvg::Tree {
        self.tree
    }

    /// The measure of the intrinsic size.
    pub closed spec fn spec_measure(&self) -> Measure {
        self.measure
    }

    /// Keeps a parsed tree together with the measure of its intrinsic
    /// size.
    pub fn from_tree(tree: vello_svg::usvg::Tree) -> (document: Document)
        ensures
            document.spec_tree() == tree,
            document.spec_measure() == intrinsic_measure(tree),
    {
        let (width_bits, height_bits) = side_bits(&tree);
        Document { tree, measure: measure(width_bits, height_bits) }
    }

    /// Turns the parser's answer into the library's: an accepted tree
    /// becomes a document with that tree and the measure of its intrinsic
    /// size, a rejection becomes a `ParseError` that carries the parser's
    /// wording.
    ///
    /// The parser itself is run by the caller, on the text that [`accept`]
    /// passed on: it may not return on every text, and nothing here could
    /// say on which.
    pub fn from_parsed(
        parsed: Result<vello_svg::usvg::Tree, vello_svg::usvg::Error>,
    ) -> (loaded: Result<Document, Failure>)
        ensures
            parsed is Ok <==> loaded is Ok,
            loaded matches Ok(document) ==> {
                &&& document.spec_tree() == parsed->Ok_0
                &&& document.spec_measure() == intrinsic_measure(parsed->Ok_0)
            },
            loaded matches Err(failure) ==> {
                &&& failure matches Failure::ParseError(reason)
                &&& reason@ == reason_text(parsed->Err_0)
            },
    {
        match parsed {
            Ok(tree) => Ok(Document::from_tree(tree)),
            Err(error) => Err(Failure::ParseError(reason_of(&error))),
        }
    }

    /// The parsed tree.
    pub fn tree(&self) -> (tree: &vello_svg::usvg::Tree)
        ensures
            *tree == self.spec_tree(),
    {
        &self.tree
    }

    /// The measure of the intrinsic size. Neither side is zero.
    #[verifier::when_used_as_spec(spec_measure)]
    pub fn measure(&self) -> (measure: Measure)
        ensures
            measure == self.spec_measure(),
            measure == intrinsic_measure(self.spec_tree()),
            measure.size.width >= 1,
            measure.size.height >= 1,
            measure.places <= 31,
    {
        proof {
            use_type_invariant(self);
        }
        self.measure
    }
}

} // verus!
