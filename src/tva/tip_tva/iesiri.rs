use vstd::prelude::*;

verus! {

pub const TAXARE_NORMALA: i8 = 1;
pub const TAXARE_INVERSA: i8 = 2;
pub const TRANZACTIE_TRIUNGHIULARA: i8 = 3;
pub const LOCUL_LIVRARII_PRESTARII_IN_AFARA_ROMANIEI: i8 = 4;
pub const INTRACOMUNITAR_SCUTIT_CU_DREPT_DE_DEDUCERE_LIT_A_D: i8 = 5;
pub const INTRACOMUNITAR_SCUTIT_CU_DREPT_DE_DEDUCERE_LIT_B_C: i8 = 6;
pub const REGIM_SPECIAL_ART1521_1522: i8 = 7;
} // verus!
