use intrare_furnizori::models::{
    BuildError, DocumentIntrareFurnizori, DocumentIntrareFurnizoriBuilder, IntrareFurnizoriBuilder,
    ItemDocumentIntrareFurnizori, ItemDocumentIntrareFurnizoriBuilder, ScadentaBuilder,
    SeriiBuilder, DN,
};
use intrare_furnizori::mod_plata::{moneda_acceptata, MODALITATI_PLATA, MONEDE_ACCEPTATE};
use intrare_furnizori::text::same_text;
use intrare_furnizori::tip_document::{tip_document_acceptat, FACTURA_INTRARE, TIPURI_DOCUMENT};

fn item() -> ItemDocumentIntrareFurnizori {
    ItemDocumentIntrareFurnizoriBuilder::default()
        .id_articol(Some("A1".to_string()))
        .cant(Some("2".to_string()))
        .build()
}

fn document() -> DocumentIntrareFurnizori {
    DocumentIntrareFurnizoriBuilder::default().items(vec![item()]).build().unwrap()
}

#[test]
fn test_intrare_furnizori_builder_fail_plain_build() {
    let result: Result<_, _> = IntrareFurnizoriBuilder::default().build();
    assert!(result.is_err());
}

#[test]
fn default_intake_misses_documente() {
    let result = IntrareFurnizoriBuilder::default().build();
    assert_eq!(result.unwrap_err(), BuildError::MissingRequiredField("documente"));
}

#[test]
fn document_with_empty_items_fails_before_intake() {
    let doc = DocumentIntrareFurnizoriBuilder::default().items(vec![]).build();
    assert_eq!(doc.unwrap_err(), BuildError::EmptyLineItems);
    let builder = IntrareFurnizoriBuilder::default()
        .tip_document(Some(FACTURA_INTRARE.to_string()))
        .an_lucru(Some("2020".to_string()))
        .luna_lucru(Some("02".to_string()));
    assert_eq!(builder.tip_document.as_deref(), Some("FACTURA INTRARE"));
    assert_eq!(builder.an_lucru.as_deref(), Some("2020"));
    assert_eq!(builder.luna_lucru.as_deref(), Some("02"));
    assert!(builder.documente.is_none());
}

#[test]
fn empty_documente_is_rejected() {
    let result = IntrareFurnizoriBuilder::default()
        .tip_document(Some(FACTURA_INTRARE.to_string()))
        .documente(vec![])
        .build();
    assert_eq!(result.unwrap_err(), BuildError::EmptyDocuments);
    let result = IntrareFurnizoriBuilder::default().documente(vec![]).build();
    assert_eq!(result.unwrap_err(), BuildError::EmptyDocuments);
}

#[test]
fn unknown_document_type_is_rejected() {
    let result = IntrareFurnizoriBuilder::default()
        .tip_document(Some("FACTURA".to_string()))
        .documente(vec![document()])
        .build();
    assert_eq!(
        result.unwrap_err(),
        BuildError::InvalidDocumentType { tip_document: "FACTURA".to_string() }
    );
    let result = IntrareFurnizoriBuilder::default()
        .tip_document(Some("factura intrare".to_string()))
        .documente(vec![document()])
        .build();
    assert!(matches!(result, Err(BuildError::InvalidDocumentType { .. })));
}

#[test]
fn document_type_is_checked_before_documente() {
    let result = IntrareFurnizoriBuilder::default()
        .tip_document(Some("CHITANTA".to_string()))
        .documente(vec![])
        .build();
    assert_eq!(
        result.unwrap_err(),
        BuildError::InvalidDocumentType { tip_document: "CHITANTA".to_string() }
    );
}

#[test]
fn every_accepted_document_type_builds() {
    for tip in TIPURI_DOCUMENT.iter() {
        let intrare = IntrareFurnizoriBuilder::default()
            .tip_document(Some(tip.to_string()))
            .an_lucru(Some("2020".to_string()))
            .luna_lucru(Some("02".to_string()))
            .documente(vec![document()])
            .build()
            .unwrap();
        assert_eq!(intrare.tip_document.as_deref(), Some(*tip));
        assert_eq!(intrare.an_lucru.as_deref(), Some("2020"));
        assert_eq!(intrare.luna_lucru.as_deref(), Some("02"));
        assert_eq!(intrare.documente.len(), 1);
        assert_eq!(intrare.documente[0].items[0].id_articol.as_deref(), Some("A1"));
    }
    let intrare = IntrareFurnizoriBuilder::default().documente(vec![document()]).build().unwrap();
    assert!(intrare.tip_document.is_none());
}

#[test]
fn empty_items_rejected_with_other_fields_valid() {
    let result = DocumentIntrareFurnizoriBuilder::default()
        .serie_doc(Some("AB".to_string()))
        .nr_doc(Some("12".to_string()))
        .operat(Some(DN::Da))
        .moneda(Some("RON".to_string()))
        .curs(Some("1".to_string()))
        .items(vec![])
        .build();
    assert_eq!(result.unwrap_err(), BuildError::EmptyLineItems);
}

#[test]
fn unknown_currency_is_rejected() {
    let result = DocumentIntrareFurnizoriBuilder::default()
        .moneda(Some("GBP".to_string()))
        .items(vec![item()])
        .build();
    assert_eq!(result.unwrap_err(), BuildError::InvalidCurrency { moneda: "GBP".to_string() });
    let result = DocumentIntrareFurnizoriBuilder::default()
        .moneda(Some("ron".to_string()))
        .items(vec![item()])
        .build();
    assert!(matches!(result, Err(BuildError::InvalidCurrency { .. })));
}

#[test]
fn accepted_currencies_pass() {
    for moneda in ["RON", "USD", "EUR"] {
        let doc = DocumentIntrareFurnizoriBuilder::default()
            .moneda(Some(moneda.to_string()))
            .items(vec![item()])
            .build()
            .unwrap();
        assert_eq!(doc.moneda.as_deref(), Some(moneda));
        assert_eq!(doc.items.len(), 1);
    }
}

#[test]
fn currency_is_checked_before_items() {
    let result = DocumentIntrareFurnizoriBuilder::default()
        .moneda(Some("XYZ".to_string()))
        .items(vec![])
        .build();
    assert_eq!(result.unwrap_err(), BuildError::InvalidCurrency { moneda: "XYZ".to_string() });
}

#[test]
fn missing_items_comes_first() {
    let result = DocumentIntrareFurnizoriBuilder::default()
        .moneda(Some("XYZ".to_string()))
        .build();
    assert_eq!(result.unwrap_err(), BuildError::MissingRequiredField("items"));
}

#[test]
fn validate_looks_only_at_given_fields() {
    assert_eq!(DocumentIntrareFurnizoriBuilder::default().validate(), Ok(()));
    assert_eq!(IntrareFurnizoriBuilder::default().validate(), Ok(()));
    let b = DocumentIntrareFurnizoriBuilder::default().moneda(Some("EUR".to_string()));
    assert_eq!(b.validate(), Ok(()));
    let b = b.items(vec![]);
    assert_eq!(b.validate(), Err(BuildError::EmptyLineItems));
    let b = IntrareFurnizoriBuilder::default().tip_document(Some("X".to_string()));
    assert_eq!(
        b.validate(),
        Err(BuildError::InvalidDocumentType { tip_document: "X".to_string() })
    );
}

#[test]
fn failed_build_can_be_retried_from_a_copy() {
    let builder = DocumentIntrareFurnizoriBuilder::default().items(vec![]);
    assert_eq!(builder.clone().build().unwrap_err(), BuildError::EmptyLineItems);
    let doc = builder.items(vec![item()]).build().unwrap();
    assert_eq!(doc.items.len(), 1);
}

#[test]
fn document_keeps_every_field() {
    let doc = DocumentIntrareFurnizoriBuilder::default()
        .serie_doc(Some("S".to_string()))
        .nr_doc(Some("N".to_string()))
        .nr_intreg(Some("NI".to_string()))
        .operat(Some(DN::Nu))
        .data(Some("D".to_string()))
        .data_dvi(Some("DD".to_string()))
        .simbol_carnet_nir(Some("SC".to_string()))
        .nr_nir(Some("NN".to_string()))
        .data_nir(Some("DN".to_string()))
        .cod_furnizori(Some("CF".to_string()))
        .locatie(Some("L".to_string()))
        .observatii(Some("O".to_string()))
        .observatii_nir(Some("ON".to_string()))
        .autofacturare(Some(DN::Da))
        .moneda(Some("USD".to_string()))
        .curs(Some("4.5".to_string()))
        .tip_tranzactie(Some("1".to_string()))
        .tva_la_incasare(Some("0".to_string()))
        .tip_tva(Some("2".to_string()))
        .cod_subunitate(Some("CS".to_string()))
        .scadenta(Some("30".to_string()))
        .mod_plata(Some("2".to_string()))
        .scadente(Some(vec![ScadentaBuilder::default().valoare(Some("10".to_string())).build()]))
        .extensie_document(Some("E".to_string()))
        .items(vec![item()])
        .build()
        .unwrap();
    assert_eq!(doc.serie_doc.as_deref(), Some("S"));
    assert_eq!(doc.nr_intreg.as_deref(), Some("NI"));
    assert!(matches!(doc.operat, Some(DN::Nu)));
    assert!(matches!(doc.autofacturare, Some(DN::Da)));
    assert_eq!(doc.data_nir.as_deref(), Some("DN"));
    assert_eq!(doc.curs.as_deref(), Some("4.5"));
    assert_eq!(doc.tip_tva.as_deref(), Some("2"));
    assert_eq!(doc.extensie_document.as_deref(), Some("E"));
    assert_eq!(doc.scadente.as_ref().unwrap()[0].valoare.as_deref(), Some("10"));
}

#[test]
fn plain_builders_never_fail() {
    let s = ScadentaBuilder::default()
        .valoare(Some("100".to_string()))
        .termen(Some("2020-03-01".to_string()))
        .mod_plata(Some("1".to_string()))
        .simbol_centru_cost(Some("CC".to_string()))
        .build();
    assert_eq!(s.valoare.as_deref(), Some("100"));
    assert_eq!(s.termen.as_deref(), Some("2020-03-01"));
    assert_eq!(s.mod_plata.as_deref(), Some("1"));
    assert_eq!(s.simbol_centru_cost.as_deref(), Some("CC"));
    let serie = SeriiBuilder::default()
        .serie(Some("L1".to_string()))
        .cant(Some("3".to_string()))
        .observatii(Some("ok".to_string()))
        .data_prod(Some("2020-01-01".to_string()))
        .build();
    assert_eq!(serie.serie.as_deref(), Some("L1"));
    assert_eq!(serie.data_prod.as_deref(), Some("2020-01-01"));
    let it = ItemDocumentIntrareFurnizoriBuilder::default()
        .um(Some("BUC".to_string()))
        .serii(Some(vec![serie]))
        .d3(Some("x".to_string()))
        .extensie_linie(Some("e".to_string()))
        .build();
    assert_eq!(it.um.as_deref(), Some("BUC"));
    assert_eq!(it.serii.as_ref().unwrap().len(), 1);
    assert_eq!(it.d3.as_deref(), Some("x"));
    assert!(it.id_articol.is_none());
    let empty = ScadentaBuilder::default().build();
    assert!(empty.valoare.is_none());
}

#[test]
fn currency_membership_is_exact() {
    assert!(moneda_acceptata("RON"));
    assert!(moneda_acceptata("USD"));
    assert!(moneda_acceptata("EUR"));
    assert!(!moneda_acceptata("ron"));
    assert!(!moneda_acceptata("RON "));
    assert!(!moneda_acceptata(""));
    assert_eq!(MONEDE_ACCEPTATE.len(), 3);
    assert_eq!(MODALITATI_PLATA, [1, 2, 3, 4, 5, 6, 7, 8]);
}

#[test]
fn document_type_membership_is_exact() {
    assert_eq!(TIPURI_DOCUMENT.len(), 7);
    assert!(tip_document_acceptat("AVIZ LA FACTURA IN ASTEPTARE"));
    assert!(tip_document_acceptat("BON FISCAL"));
    assert!(!tip_document_acceptat("BON  FISCAL"));
    assert!(!tip_document_acceptat("FACTURA INTRARE "));
}

#[test]
fn text_equality() {
    assert!(same_text("", ""));
    assert!(same_text("ăîș", "ăîș"));
    assert!(!same_text("ab", "abc"));
    assert!(!same_text("abc", "abd"));
}
