//! Laws that the builders' validation obeys, stated over their specifications.
use vstd::prelude::*;

use crate::mod_plata::monede_acceptate;
use crate::models::{
    BuildError, DocumentIntrareFurnizori, DocumentIntrareFurnizoriBuilder, IntrareFurnizori,
    IntrareFurnizoriBuilder,
};
use crate::tip_document::tipuri_document;

verus! {

/// An intake whose document list was given empty is refused for having no documents,
/// whenever its document type is absent or accepted.
pub proof fn lemma_empty_documents_rejected(b: IntrareFurnizoriBuilder)
    requires
        b.documente is Some,
        b.documente.unwrap().len() == 0,
        b.tip_document_valid(),
    ensures
        b.spec_build() == Err::<IntrareFurnizori, BuildError>(
            BuildError::EmptyDocuments,
        ),
{
}

/// An intake with a document list is refused for its document type exactly when that type
/// is given and is not an accepted label; with an accepted label and at least one
/// document it is built.
pub proof fn lemma_document_type_checked(b: IntrareFurnizoriBuilder)
    requires
        b.documente is Some,
    ensures
        !b.tip_document_valid() ==> b.spec_build() == Err::<IntrareFurnizori, BuildError>(
            BuildError::InvalidDocumentType { tip_document: b.tip_document.unwrap() },
        ),
        b.tip_document is Some && tipuri_document().contains(b.tip_document.unwrap()@)
            && b.documente.unwrap().len() > 0 ==> b.spec_build() is Ok,
{
}

/// A document whose line list was given empty is refused for having no lines, whenever
/// its currency is absent or accepted.
pub proof fn lemma_empty_items_rejected(b: DocumentIntrareFurnizoriBuilder)
    requires
        b.items is Some,
        b.items.unwrap().len() == 0,
        b.moneda_valida(),
    ensures
        b.spec_build() == Err::<DocumentIntrareFurnizori, BuildError>(
            BuildError::EmptyLineItems,
        ),
{
}

/// A document with a line list is refused for its currency exactly when the currency is
/// given and is not an accepted code; an accepted code never brings that refusal.
pub proof fn lemma_currency_checked(b: DocumentIntrareFurnizoriBuilder)
    requires
        b.items is Some,
    ensures
        !b.moneda_valida() ==> b.spec_build() == Err::<DocumentIntrareFurnizori, BuildError>(
            BuildError::InvalidCurrency { moneda: b.moneda.unwrap() },
        ),
        b.moneda is Some && monede_acceptate().contains(b.moneda.unwrap()@) ==> !(b.spec_build() matches Err(BuildError::InvalidCurrency { .. })),
{
}

/// The currency is checked before the lines: a document with a rejected currency and no
/// lines is refused for its currency.
pub proof fn lemma_currency_checked_before_items(b: DocumentIntrareFurnizoriBuilder)
    requires
        !b.moneda_valida(),
        b.items is Some,
        b.items.unwrap().len() == 0,
    ensures
        b.spec_build() == Err::<DocumentIntrareFurnizori, BuildError>(
            BuildError::InvalidCurrency { moneda: b.moneda.unwrap() },
        ),
{
}

} // verus!
