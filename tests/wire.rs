use intrare_furnizori::models::{
    DocumentIntrareFurnizoriBuilder, IntrareFurnizoriBuilder, ItemDocumentIntrareFurnizoriBuilder,
    ScadentaBuilder, SeriiBuilder, DN,
};
use intrare_furnizori::wire::{Camp, ETICHETA_DOCUMENTE, ETICHETA_ITEMS, ETICHETA_SCADENTE, ETICHETA_SERII};

fn read<'a>(campuri: &'a [Camp], eticheta: &str) -> Option<&'a Option<String>> {
    campuri.iter().find(|c| c.eticheta == eticheta).map(|c| &c.valoare)
}

fn labels_unique(campuri: &[Camp]) -> bool {
    campuri.iter().enumerate().all(|(i, a)| campuri[i + 1..].iter().all(|b| a.eticheta != b.eticheta))
}

#[test]
fn document_fields_read_back_under_their_labels() {
    let doc = DocumentIntrareFurnizoriBuilder::default()
        .serie_doc(Some("AB".to_string()))
        .operat(Some(DN::Da))
        .autofacturare(Some(DN::Nu))
        .data_dvi(Some("2020-02-01".to_string()))
        .tva_la_incasare(Some("1".to_string()))
        .extensie_document(Some("ext".to_string()))
        .moneda(Some("EUR".to_string()))
        .items(vec![ItemDocumentIntrareFurnizoriBuilder::default().build()])
        .build()
        .unwrap();
    let campuri = doc.campuri();
    assert_eq!(campuri.len(), 23);
    assert!(labels_unique(&campuri));
    assert_eq!(campuri[0].eticheta, "SerieDoc");
    assert_eq!(read(&campuri, "SerieDoc"), Some(&Some("AB".to_string())));
    assert_eq!(read(&campuri, "Operat"), Some(&Some("Da".to_string())));
    assert_eq!(read(&campuri, "Autofacturare"), Some(&Some("Nu".to_string())));
    assert_eq!(read(&campuri, "DataDVI"), Some(&Some("2020-02-01".to_string())));
    assert_eq!(read(&campuri, "TVALaIncasare"), Some(&Some("1".to_string())));
    assert_eq!(read(&campuri, "EXTENSIEDOCUMENT"), Some(&Some("ext".to_string())));
    assert_eq!(read(&campuri, "Moneda"), Some(&Some("EUR".to_string())));
    assert_eq!(read(&campuri, "NrDoc"), Some(&None));
    assert_eq!(read(&campuri, "items"), None);
}

#[test]
fn item_and_nested_records_use_fixed_labels() {
    let item = ItemDocumentIntrareFurnizoriBuilder::default()
        .id_articol(Some("X1".to_string()))
        .um(Some("KG".to_string()))
        .tva_neded(Some("0".to_string()))
        .extensie_linie(Some("L".to_string()))
        .build();
    let campuri = item.campuri();
    assert_eq!(campuri.len(), 17);
    assert!(labels_unique(&campuri));
    assert_eq!(read(&campuri, "IDArticol"), Some(&Some("X1".to_string())));
    assert_eq!(read(&campuri, "UM"), Some(&Some("KG".to_string())));
    assert_eq!(read(&campuri, "TVANeded"), Some(&Some("0".to_string())));
    assert_eq!(read(&campuri, "EXTENSIELINIE"), Some(&Some("L".to_string())));
    let s = ScadentaBuilder::default().mod_plata(Some("2".to_string())).build();
    let campuri = s.campuri();
    assert_eq!(campuri.len(), 4);
    assert_eq!(read(&campuri, "ModPlata"), Some(&Some("2".to_string())));
    let serie = SeriiBuilder::default().data_prod(Some("2020".to_string())).build();
    assert_eq!(read(&serie.campuri(), "DataProd"), Some(&Some("2020".to_string())));
    assert_eq!(ETICHETA_ITEMS, "items");
    assert_eq!(ETICHETA_SERII, "Serii");
    assert_eq!(ETICHETA_SCADENTE, "Scadente");
    assert_eq!(ETICHETA_DOCUMENTE, "Documente");
}

#[test]
fn intake_fields_read_back() {
    let doc = DocumentIntrareFurnizoriBuilder::default()
        .items(vec![ItemDocumentIntrareFurnizoriBuilder::default().build()])
        .build()
        .unwrap();
    let intrare = IntrareFurnizoriBuilder::default()
        .tip_document(Some("INVOICE".to_string()))
        .an_lucru(Some("2020".to_string()))
        .luna_lucru(Some("02".to_string()))
        .documente(vec![doc])
        .build()
        .unwrap();
    let campuri = intrare.campuri();
    let labels: Vec<&str> = campuri.iter().map(|c| c.eticheta).collect();
    assert_eq!(labels, vec!["TipDocument", "AnLucru", "LunaLucru"]);
    assert_eq!(read(&campuri, "TipDocument"), Some(&Some("INVOICE".to_string())));
    assert_eq!(read(&campuri, "LunaLucru"), Some(&Some("02".to_string())));
    assert_eq!(DN::Da.cuvant(), "Da");
    assert_eq!(DN::Nu.cuvant(), "Nu");
}
