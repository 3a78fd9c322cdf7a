//! Tagged property values and their wire-type signatures.

use vstd::prelude::*;

verus! {

/// A property value: a string, an unsigned 64-bit integer, or a value of some
/// other wire type, kept only as its type signature.
#[derive(Debug, PartialEq)]
pub enum Variant {
    Str(String),
    UInt64(u64),
    Other { sig: String },
}

/// The mathematical value of a [`Variant`]: the same three cases over
/// sequences of characters and integers.
pub enum VariantView {
    Str(Seq<char>),
    UInt64(u64),
    Other(Seq<char>),
}

impl View for Variant {
    type V = VariantView;

    open spec fn view(&self) -> VariantView {
        match self {
            Variant::Str(s) => VariantView::Str(s@),
            Variant::UInt64(n) => VariantView::UInt64(*n),
            Variant::Other { sig } => VariantView::Other(sig@),
        }
    }
}

/// The one-character (or composite) wire-type signature of a value:
/// `s` for strings, `t` for unsigned 64-bit integers, and the stored
/// signature for any other value.
pub open spec fn spec_signature(v: VariantView) -> Seq<char> {
    match v {
        VariantView::Str(_) => "s"@,
        VariantView::UInt64(_) => "t"@,
        VariantView::Other(sig) => sig,
    }
}

impl Variant {
    /// Whether two values carry the same tag (string with string, integer
    /// with integer); values of other wire types never compare the same.
    pub open spec fn spec_same(self, v: Variant) -> bool {
        match (self@, v@) {
            (VariantView::Str(_), VariantView::Str(_)) => true,
            (VariantView::UInt64(_), VariantView::UInt64(_)) => true,
            _ => false,
        }
    }

    /// Tag equality: true exactly when both values are strings or both are
    /// unsigned 64-bit integers.
    pub fn same(&self, v: &Variant) -> (r: bool)
        ensures
            r == self.spec_same(*v),
    {
        match (self, v) {
            (Variant::Str(_), Variant::Str(_)) => true,
            (Variant::UInt64(_), Variant::UInt64(_)) => true,
            _ => false,
        }
    }

    /// The wire-type signature of this value, per [`spec_signature`].
    pub fn signature(&self) -> (r: String)
        ensures
            r@ == spec_signature(self@),
    {
        match self {
            Variant::Str(_) => "s".to_owned(),
            Variant::UInt64(_) => "t".to_owned(),
            Variant::Other { sig } => sig.clone(),
        }
    }
}

impl Clone for Variant {
    /// Strings and integers clone to equal values; a value of another wire
    /// type has no stored payload to copy and clones to the integer zero.
    fn clone(&self) -> (r: Self)
        ensures
            r@ == match self@ {
                VariantView::Other(_) => VariantView::UInt64(0),
                v => v,
            },
    {
        match self {
            Variant::Str(s) => Variant::Str(s.clone()),
            Variant::UInt64(n) => Variant::UInt64(*n),
            Variant::Other { sig: _ } => Variant::UInt64(0),
        }
    }
}

} // verus!
