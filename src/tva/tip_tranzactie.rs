//! VAT transaction-type codes, by direction of the flow.
pub mod iesiri;
pub mod intrari;
pub mod invoice;
