use vstd::prelude::*;

verus! {

pub const TAXARE_NORMALA: i8 = 1;
pub const TAXARE_INVERSA: i8 = 2;
pub const TRANZACTIE_TRIUNGHIULARA: i8 = 3;
pub const TAXARE_NORMALA_PRORATA: i8 = 4;
pub const REGIM_SPECIAL_ART1521_1522: i8 = 5;
pub const REGIM_SPECIAL_DE_SCUTIRE_ART311_CF: i8 = 6;
pub const REGIM_SPECIAL_DE_SCUTIRE_ART312_CF: i8 = 7;
pub const ACHIZITII_UE_BUNURI_CU_INSTALARE_MONTAJ: i8 = 8;
} // verus!
