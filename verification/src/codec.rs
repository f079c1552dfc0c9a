//! The string codec behind a generated `DBEnum` implementation.
//!
//! For an enum stored as a text column, the generated code maps each
//! variant to the exact spelling of its identifier and back.  That mapping
//! is captured here as an explicit ordered table of variant names, shared
//! by the encode and decode directions, so that the round-trip property can
//! be proved once for every enum the generator accepts.
//!
//! A variant instance is represented by its position in the table.

use vstd::prelude::*;
use vstd::utf8::{decode_utf8, encode_utf8, encode_utf8_decode_utf8, encode_utf8_valid_utf8,
    valid_utf8};

verus! {

/// The complete taxonomy of decode failures.  Decoding never fails in any
/// other way, and encoding cannot fail at all.
#[derive(Clone, Copy, Debug, PartialEq, Eq, Structural)]
pub enum DecodeError {
    /// No column value was provided.
    MissingValue,
    /// The column value is not valid UTF-8 text.
    InvalidEncoding,
    /// The column value is text, but matches no variant's identifier.
    UnknownVariant,
}

impl DecodeError {
    /// The fixed descriptive message for this decode failure.
    pub fn message(&self) -> (r: &'static str)
        ensures
            *self == DecodeError::MissingValue ==> r@ == "Value not provided"@,
            *self == DecodeError::InvalidEncoding ==> r@ == "Could not load string"@,
            *self == DecodeError::UnknownVariant ==> r@ == "Unexpected value"@,
    {
        match self {
            DecodeError::MissingValue => "Value not provided",
            DecodeError::InvalidEncoding => "Could not load string",
            DecodeError::UnknownVariant => "Unexpected value",
        }
    }
}

/// The position of the first name in `names` equal to `text`, if any.
pub open spec fn spec_first_match(names: Seq<Seq<char>>, text: Seq<char>) -> Option<int>
    decreases names.len(),
{
    if names.len() == 0 {
        None
    } else if names[0] == text {
        Some(0int)
    } else {
        match spec_first_match(names.drop_first(), text) {
            Some(j) => Some(j + 1),
            None => None,
        }
    }
}

/// What decoding an optional byte sequence against the ordered variant-name
/// table `names` returns: the position of the matching variant, or the
/// decode failure that the input forces.
///
/// An absent value fails with [`DecodeError::MissingValue`]; bytes that are
/// not valid UTF-8 fail with [`DecodeError::InvalidEncoding`]; text that
/// matches no name fails with [`DecodeError::UnknownVariant`].
pub open spec fn spec_decode(names: Seq<Seq<char>>, value: Option<Seq<u8>>) -> Result<
    int,
    DecodeError,
> {
    match value {
        None => Err(DecodeError::MissingValue),
        Some(bytes) => {
            if !valid_utf8(bytes) {
                Err(DecodeError::InvalidEncoding)
            } else {
                match spec_first_match(names, decode_utf8(bytes)) {
                    Some(i) => Ok(i),
                    None => Err(DecodeError::UnknownVariant),
                }
            }
        },
    }
}

/// Whether all names in the table differ pairwise.  The host language's
/// declaration rules guarantee this of an enum's variant identifiers.
pub open spec fn distinct_names(names: Seq<Seq<char>>) -> bool {
    forall|i: int, j: int| 0 <= i < j < names.len() ==> names[i] != names[j]
}

/// A match at position `i`, with no match before it, is the first match.
proof fn lemma_first_match_at(names: Seq<Seq<char>>, text: Seq<char>, i: int)
    requires
        0 <= i < names.len(),
        names[i] == text,
        forall|j: int| 0 <= j < i ==> names[j] != text,
    ensures
        spec_first_match(names, text) == Some(i),
    decreases i,
{
    if i > 0 {
        lemma_first_match_at(names.drop_first(), text, i - 1);
    }
}

/// When no name matches, the search finds nothing.
proof fn lemma_first_match_none(names: Seq<Seq<char>>, text: Seq<char>)
    requires
        forall|j: int| 0 <= j < names.len() ==> names[j] != text,
    ensures
        spec_first_match(names, text) is None,
    decreases names.len(),
{
    if names.len() > 0 {
        lemma_first_match_none(names.drop_first(), text);
    }
}

/// Relies on std::str::from_utf8: it succeeds exactly on byte sequences
/// that are valid UTF-8, and then returns the string whose characters are
/// the decoding of those bytes.
#[verifier::external_body]
fn parse_utf8(bytes: &[u8]) -> (r: Option<&str>)
    ensures
        match r {
            Some(s) => valid_utf8(bytes@) && s@ == decode_utf8(bytes@),
            None => !valid_utf8(bytes@),
        },
{
    std::str::from_utf8(bytes).ok()
}

/// The explicit bidirectional mapping between an enum's variants and their
/// textual names, built once per enum declaration by the `DBEnum`
/// generator.
pub struct EnumCodec {
    /// The enum's identifier.
    pub enum_ident: String,
    /// Each variant's identifier, in declaration order.  The variant at
    /// position `i` encodes to exactly `variants[i]`.
    pub variants: Vec<String>,
}

impl EnumCodec {
    /// The ordered variant-name table.
    pub open spec fn names(&self) -> Seq<Seq<char>> {
        self.variants.deep_view()
    }

    /// Well-formedness: the variant names differ pairwise, as the host
    /// language's declaration rules guarantee of an enum.
    pub open spec fn wf(&self) -> bool {
        distinct_names(self.names())
    }

    /// The number of variants in the table.
    pub fn len(&self) -> (r: usize)
        ensures
            r == self.names().len(),
    {
        self.variants.len()
    }

    /// Decodes an optional raw column value to the position of the variant
    /// whose identifier it spells.
    ///
    /// Absence, malformed text and unmatched text are each rejected with
    /// their own error, exactly as [`spec_decode`] states.
    pub fn decode(&self, value: Option<&[u8]>) -> (r: Result<usize, DecodeError>)
        ensures
            ({
                let s = spec_decode(
                    self.names(),
                    match value {
                        Some(bytes) => Some(bytes@),
                        None => None,
                    },
                );
                match r {
                    Ok(i) => s == Ok::<int, DecodeError>(i as int),
                    Err(e) => s == Err::<int, DecodeError>(e),
                }
            }),
    {
        match value {
            None => Err(DecodeError::MissingValue),
            Some(bytes) => match parse_utf8(bytes) {
                None => Err(DecodeError::InvalidEncoding),
                Some(text) => {
                    let owned: String = text.to_owned();
                    let ghost nm = self.names();
                    let ghost t = decode_utf8(bytes@);
                    let mut i: usize = 0;
                    while i < self.variants.len()
                        invariant
                            i <= self.variants.len(),
                            value == Some(bytes),
                            valid_utf8(bytes@),
                            t == decode_utf8(bytes@),
                            owned@ == t,
                            nm == self.names(),
                            forall|j: int| 0 <= j < i ==> nm[j] != t,
                        decreases self.variants.len() - i,
                    {
                        if self.variants[i] == owned {
                            proof {
                                lemma_first_match_at(nm, t, i as int);
                            }
                            return Ok(i);
                        }
                        i += 1;
                    }
                    proof {
                        lemma_first_match_none(nm, t);
                    }
                    Err(DecodeError::UnknownVariant)
                },
            },
        }
    }

    /// Encodes the variant at position `variant` to the plain-text
    /// rendering of its identifier: the exact spelling from the
    /// declaration, with no case folding and no renaming.  Encoding a
    /// known variant always succeeds.
    pub fn encode(&self, variant: usize) -> (r: String)
        requires
            variant < self.names().len(),
        ensures
            r@ == self.names()[variant as int],
    {
        self.variants[variant].clone()
    }
}

/// Round-trip law: decoding the UTF-8 bytes of a variant's encoded name
/// yields that same variant, for every variant of a table with pairwise
/// distinct names.
pub proof fn lemma_round_trip(names: Seq<Seq<char>>, v: int)
    requires
        distinct_names(names),
        0 <= v < names.len(),
    ensures
        spec_decode(names, Some(encode_utf8(names[v]))) == Ok::<int, DecodeError>(v),
{
    encode_utf8_valid_utf8(names[v]);
    encode_utf8_decode_utf8(names[v]);
    lemma_first_match_at(names, names[v], v);
}

/// Exhaustive rejection law: valid UTF-8 text that equals no name in the
/// table decodes to [`DecodeError::UnknownVariant`].
pub proof fn lemma_unknown_variant(names: Seq<Seq<char>>, bytes: Seq<u8>)
    ensures
        valid_utf8(bytes) && (forall|i: int|
            0 <= i < names.len() ==> names[i] != decode_utf8(bytes)) ==> spec_decode(
            names,
            Some(bytes),
        ) == Err::<int, DecodeError>(DecodeError::UnknownVariant),
{
    if valid_utf8(bytes) && (forall|i: int|
        0 <= i < names.len() ==> names[i] != decode_utf8(bytes)) {
        lemma_first_match_none(names, decode_utf8(bytes));
    }
}

/// Encoding-failure law: bytes that are not valid UTF-8 decode to
/// [`DecodeError::InvalidEncoding`], whatever the table holds.
pub proof fn lemma_invalid_encoding(names: Seq<Seq<char>>, bytes: Seq<u8>)
    ensures
        !valid_utf8(bytes) ==> spec_decode(names, Some(bytes)) == Err::<int, DecodeError>(
            DecodeError::InvalidEncoding,
        ),
{
}

/// Absence law: an absent value decodes to [`DecodeError::MissingValue`],
/// whatever the table holds.
pub proof fn lemma_missing_value(names: Seq<Seq<char>>)
    ensures
        spec_decode(names, None::<Seq<u8>>) == Err::<int, DecodeError>(DecodeError::MissingValue),
{
}

} // verus!
