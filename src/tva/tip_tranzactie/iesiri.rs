use vstd::prelude::*;

verus! {

pub const TRANZACTIE_INTERNA: i8 = 1;
pub const LIVRARE_INTRACOMUNITARA: i8 = 2;
pub const EXPORT: i8 = 3;
pub const INTERNA_AUTOFACTURARE: i8 = 4;
} // verus!
