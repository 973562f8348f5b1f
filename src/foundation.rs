//! Values, places and borrows: writing through `&mut` parameters, and a tokenizer
//! that borrows the pieces of the text it splits.

use vstd::prelude::*;

verus! {

/// Writes twice `*input` into `*sum`.
pub fn example_6_inner(input: &i32, sum: &mut i32)
    requires
        i32::MIN <= 2 * *input <= i32::MAX,
    ensures
        *final(sum) == 2 * *input,
{
    *sum = *input + *input;
    assert(*sum == 2 * *input);
}

/// Writes 2 into `*output` when `*input` is 1, and 3 otherwise.
pub fn example_7_inner(input: &i32, output: &mut i32)
    ensures
        *final(output) == if *input == 1 { 2i32 } else { 3i32 },
{
    if *input == 1 {
        *output = 2;
    }
    if *input != 1 {
        *output = 3;
    }
}

/// The pieces of `document` between the matches of `delimiter`, left to right, as
/// `str::split` yields them.
pub uninterp spec fn split_of(document: Seq<char>, delimiter: Seq<char>) -> Seq<Seq<char>>;

/// Relies on `str::split`: the pieces of `document` between the non-overlapping
/// matches of `delimiter`, left to right; there is always at least one piece.
#[verifier::external_body]
fn split_pieces<'s>(document: &'s str, delimiter: &str) -> (r: Vec<&'s str>)
    ensures
        r@.map_values(|t: &'s str| t@) == split_of(document@, delimiter@),
        r@.len() >= 1,
{
    document.split(delimiter).collect::<Vec<&'s str>>()
}

/// A tokenizer over `document` that hands out its pieces, last piece first.
pub struct StrSplit<'s, 'p> {
    delimiter: &'p str,
    document: &'s str,
    spliced: Vec<&'s str>,
}

impl<'s, 'p> StrSplit<'s, 'p> {
    /// The pieces not handed out yet, in document order.
    pub closed spec fn remaining(&self) -> Seq<Seq<char>> {
        self.spliced@.map_values(|t: &'s str| t@)
    }

    /// The text being split.
    pub closed spec fn spec_document(&self) -> Seq<char> {
        self.document@
    }

    /// The delimiter splitting it.
    pub closed spec fn spec_delimiter(&self) -> Seq<char> {
        self.delimiter@
    }

    /// A tokenizer over all the pieces of `document` between matches of `delimiter`.
    pub fn new(delimiter: &'p str, document: &'s str) -> (r: StrSplit<'s, 'p>)
        ensures
            r.remaining() == split_of(document@, delimiter@),
            r.remaining().len() >= 1,
            r.spec_document() == document@,
            r.spec_delimiter() == delimiter@,
    {
        StrSplit::from_pieces(delimiter, document, split_pieces(document, delimiter))
    }

    /// A tokenizer handing out `pieces`, which were cut from `document` at matches of
    /// `delimiter`.
    pub fn from_pieces(delimiter: &'p str, document: &'s str, pieces: Vec<&'s str>) -> (r:
        StrSplit<'s, 'p>)
        ensures
            r.remaining() == pieces@.map_values(|t: &'s str| t@),
            r.spec_document() == document@,
            r.spec_delimiter() == delimiter@,
    {
        StrSplit { delimiter, document, spliced: pieces }
    }

    /// Hands out the last piece not handed out yet, or `None` when all were.
    pub fn next(&mut self) -> (r: Option<&'s str>)
        ensures
            old(self).remaining().len() == 0 ==> r is None && final(self).remaining()
                == old(self).remaining(),
            old(self).remaining().len() > 0 ==> {
                &&& r is Some
                &&& r->0@ == old(self).remaining().last()
                &&& final(self).remaining() == old(self).remaining().drop_last()
            },
            final(self).spec_document() == old(self).spec_document(),
            final(self).spec_delimiter() == old(self).spec_delimiter(),
    {
        let ghost before = self.spliced@;
        let r = self.spliced.pop();
        proof {
            if before.len() > 0 {
                assert(self.spliced@ == before.drop_last());
                assert(self.spliced@.map_values(|t: &'s str| t@) =~= before.map_values(
                    |t: &'s str| t@,
                ).drop_last());
            }
        }
        r
    }
}

} // verus!
