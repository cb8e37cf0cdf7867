//! VAT particulars of inbound and outbound documents.
pub mod tip_tranzactie;
pub mod tip_tva;
