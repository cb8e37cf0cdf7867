use vstd::prelude::*;

verus! {

pub const TAXARE_NORMALA: i8 = 1;
pub const TAXARE_INVERSA: i8 = 2;
pub const TRANZACTIE_TRIUNGHIULARA: i8 = 3;
pub const TAXARE_NORMALA_PRORATA: i8 = 4;
} // verus!
