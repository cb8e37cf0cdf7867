//! Accepted document-type labels of a supplier intake.
use vstd::prelude::*;

use crate::text::same_text;

verus! {

pub const FACTURA_INTRARE: &'static str = "FACTURA INTRARE";
pub const AVIZ_INTRARE: &'static str = "AVIZ INTRARE";
pub const INVOICE: &'static str = "INVOICE";
pub const FACTURA_IN_ASTEPTARE: &'static str = "FACTURA IN ASTEPTARE";
pub const AVIZ_LA_FACTURA_IN_ASTEPTARE: &'static str = "AVIZ LA FACTURA IN ASTEPTARE";
pub const FACTURA_LA_AVIZ: &'static str = "FACTURA LA AVIZ";
pub const BON_FISCAL: &'static str = "BON FISCAL";

pub const TIPURI_DOCUMENT: [&'static str; 7] = [
    FACTURA_INTRARE,
    AVIZ_INTRARE,
    INVOICE,
    FACTURA_IN_ASTEPTARE,
    AVIZ_LA_FACTURA_IN_ASTEPTARE,
    FACTURA_LA_AVIZ,
    BON_FISCAL,
];

/// The accepted document-type labels, in their listed order.
pub open spec fn tipuri_document() -> Seq<Seq<char>> {
    seq![
        FACTURA_INTRARE@,
        AVIZ_INTRARE@,
        INVOICE@,
        FACTURA_IN_ASTEPTARE@,
        AVIZ_LA_FACTURA_IN_ASTEPTARE@,
        FACTURA_LA_AVIZ@,
        BON_FISCAL@,
    ]
}

/// Whether `tip` is one of the accepted document-type labels (exact match).
pub fn tip_document_acceptat(tip: &str) -> (r: bool)
    ensures
        r == tipuri_document().contains(tip@),
{
    let mut i: usize = 0;
    while i < 7
        invariant
            i <= 7,
            forall|j: int| 0 <= j < i ==> tipuri_document()[j] != tip@,
        decreases 7 - i,
    {
        if same_text(TIPURI_DOCUMENT[i], tip) {
            assert(tipuri_document()[i as int] == tip@);
            return true;
        }
        i = i + 1;
    }
    assert(!tipuri_document().contains(tip@));
    false
}

} // verus!
