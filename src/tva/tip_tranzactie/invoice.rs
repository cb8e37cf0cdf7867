use vstd::prelude::*;

verus! {

pub const ACHIZITIE_INTRACOMUNITARA: i8 = 2;
pub const IMPORT_BUNURI_SI_SERVICII: i8 = 3;
pub const FACTURA_DE_TRANSPORT_TAXABILA_PE_DVI: i8 = 4;
} // verus!
