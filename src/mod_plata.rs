//! Payment modes and accepted currencies.
use vstd::prelude::*;

use crate::text::same_text;

verus! {

pub const NUMERAR: i8 = 1;
pub const ORDIN_PLATA: i8 = 2;
pub const CEC: i8 = 3;
pub const BILET_LA_ORDIN: i8 = 4;
pub const COMPENSARE: i8 = 5;
pub const MAJORARI: i8 = 6;
pub const CEC_BO_GIRAT: i8 = 7;
pub const BO_AVALIZAT: i8 = 8;

pub const MODALITATI_PLATA: [i8; 8] = [
    NUMERAR,
    ORDIN_PLATA,
    CEC,
    BILET_LA_ORDIN,
    COMPENSARE,
    MAJORARI,
    CEC_BO_GIRAT,
    BO_AVALIZAT,
];

pub const MONEDE_ACCEPTATE: [&'static str; 3] = ["RON", "USD", "EUR"];

/// The accepted currency codes, in their listed order.
pub open spec fn monede_acceptate() -> Seq<Seq<char>> {
    seq!["RON"@, "USD"@, "EUR"@]
}

/// Whether `moneda` is one of the accepted currency codes (exact match).
pub fn moneda_acceptata(moneda: &str) -> (r: bool)
    ensures
        r == monede_acceptate().contains(moneda@),
{
    let mut i: usize = 0;
    while i < 3
        invariant
            i <= 3,
            forall|j: int| 0 <= j < i ==> monede_acceptate()[j] != moneda@,
        decreases 3 - i,
    {
        if same_text(MONEDE_ACCEPTATE[i], moneda) {
            assert(monede_acceptate()[i as int] == moneda@);
            return true;
        }
        i = i + 1;
    }
    assert(!monede_acceptate().contains(moneda@));
    false
}

} // verus!
