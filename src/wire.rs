//! The wire form of the records: each scalar field under its fixed, case-sensitive label.
//!
//! A record lists its scalar fields as [`Camp`]s, in the order in which they are sent; its
//! nested lists go under the labels named by the constants below.
use vstd::prelude::*;

use crate::models::{
    DocumentIntrareFurnizori, IntrareFurnizori, ItemDocumentIntrareFurnizori, Scadenta, Serii, DN,
};

verus! {

/// The label of a line item's series list.
pub const ETICHETA_SERII: &'static str = "Serii";

/// The label of a document's payment schedule.
pub const ETICHETA_SCADENTE: &'static str = "Scadente";

/// The label of a document's lines (lower case on the wire).
pub const ETICHETA_ITEMS: &'static str = "items";

/// The label of an intake's documents.
pub const ETICHETA_DOCUMENTE: &'static str = "Documente";

/// A scalar field as sent: its label and its text, or null.
#[derive(Debug, Clone)]
pub struct Camp {
    pub eticheta: &'static str,
    pub valoare: Option<String>,
}

impl View for Camp {
    type V = (Seq<char>, Option<Seq<char>>);

    open spec fn view(&self) -> (Seq<char>, Option<Seq<char>>) {
        (self.eticheta@, text_of(self.valoare))
    }
}

/// The text of an optional string.
pub open spec fn text_of(v: Option<String>) -> Option<Seq<char>> {
    match v {
        Some(s) => Some(s@),
        None => None,
    }
}

/// The word that stands for a yes/no value on the wire.
pub open spec fn dn_word(d: DN) -> Seq<char> {
    match d {
        DN::Da => "Da"@,
        DN::Nu => "Nu"@,
    }
}

/// The text of an optional yes/no value.
pub open spec fn dn_text(v: Option<DN>) -> Option<Seq<char>> {
    match v {
        Some(d) => Some(dn_word(d)),
        None => None,
    }
}

/// The yes/no value that a text stands for, if any.
pub open spec fn dn_from_text(t: Option<Seq<char>>) -> Option<DN> {
    match t {
        Some(w) => if w == "Da"@ {
            Some(DN::Da)
        } else if w == "Nu"@ {
            Some(DN::Nu)
        } else {
            None
        },
        None => None,
    }
}

/// The value stored under the first entry labelled `eticheta`, if there is one.
pub open spec fn citeste(
    campuri: Seq<(Seq<char>, Option<Seq<char>>)>,
    eticheta: Seq<char>,
) -> Option<Option<Seq<char>>>
    decreases campuri.len(),
{
    if campuri.len() == 0 {
        None
    } else if campuri[0].0 == eticheta {
        Some(campuri[0].1)
    } else {
        citeste(campuri.drop_first(), eticheta)
    }
}

/// No label appears twice.
pub open spec fn etichete_distincte(campuri: Seq<(Seq<char>, Option<Seq<char>>)>) -> bool {
    forall|i: int, j: int|
        0 <= i < j < campuri.len() ==> #[trigger] campuri[i].0 != #[trigger] campuri[j].0
}

/// With distinct labels, reading the label of an entry gives that entry's value.
pub proof fn lemma_citeste(campuri: Seq<(Seq<char>, Option<Seq<char>>)>, i: int)
    requires
        etichete_distincte(campuri),
        0 <= i < campuri.len(),
    ensures
        citeste(campuri, campuri[i].0) == Some(campuri[i].1),
    decreases i,
{
    if i > 0 {
        let rest = campuri.drop_first();
        assert(campuri[0].0 != campuri[i].0);
        assert(rest[i - 1] == campuri[i]);
        assert forall|a: int, b: int| 0 <= a < b < rest.len() implies rest[a].0 != rest[b].0 by {
            assert(rest[a] == campuri[a + 1]);
            assert(rest[b] == campuri[b + 1]);
        }
        lemma_citeste(rest, i - 1);
    }
}

impl DN {
    /// The word that stands for this value on the wire.
    pub fn cuvant(&self) -> (r: &'static str)
        ensures
            r@ == dn_word(*self),
    {
        match self {
            DN::Da => "Da",
            DN::Nu => "Nu",
        }
    }
}

/// The wire text of an optional yes/no value.
fn text_dn(v: &Option<DN>) -> (r: Option<String>)
    ensures
        text_of(r) == dn_text(*v),
{
    match v {
        Some(d) => Some(d.cuvant().to_owned()),
        None => None,
    }
}

impl Scadenta {
    /// The scalar fields of this record under their labels, in the order sent.
    pub open spec fn spec_campuri(self) -> Seq<(Seq<char>, Option<Seq<char>>)> {
        seq![
            ("Valoare"@, text_of(self.valoare)),
            ("Termen"@, text_of(self.termen)),
            ("ModPlata"@, text_of(self.mod_plata)),
            ("SimbolCentruCost"@, text_of(self.simbol_centru_cost)),
        ]
    }

    /// The scalar fields of this record under their labels, in the order sent.
    pub fn campuri(&self) -> (r: Vec<Camp>)
        ensures
            r@.map_values(|c: Camp| c@) == self.spec_campuri(),
    {
        let mut r: Vec<Camp> = Vec::new();
        r.push(Camp { eticheta: "Valoare", valoare: self.valoare.clone() });
        r.push(Camp { eticheta: "Termen", valoare: self.termen.clone() });
        r.push(Camp { eticheta: "ModPlata", valoare: self.mod_plata.clone() });
        r.push(Camp { eticheta: "SimbolCentruCost", valoare: self.simbol_centru_cost.clone() });
        assert(r@.map_values(|c: Camp| c@) =~= self.spec_campuri());
        r
    }
}

impl Serii {
    /// The scalar fields of this record under their labels, in the order sent.
    pub open spec fn spec_campuri(self) -> Seq<(Seq<char>, Option<Seq<char>>)> {
        seq![
            ("Serie"@, text_of(self.serie)),
            ("Cant"@, text_of(self.cant)),
            ("Observatii"@, text_of(self.observatii)),
            ("DataProd"@, text_of(self.data_prod)),
        ]
    }

    /// The scalar fields of this record under their labels, in the order sent.
    pub fn campuri(&self) -> (r: Vec<Camp>)
        ensures
            r@.map_values(|c: Camp| c@) == self.spec_campuri(),
    {
        let mut r: Vec<Camp> = Vec::new();
        r.push(Camp { eticheta: "Serie", valoare: self.serie.clone() });
        r.push(Camp { eticheta: "Cant", valoare: self.cant.clone() });
        r.push(Camp { eticheta: "Observatii", valoare: self.observatii.clone() });
        r.push(Camp { eticheta: "DataProd", valoare: self.data_prod.clone() });
        assert(r@.map_values(|c: Camp| c@) =~= self.spec_campuri());
        r
    }
}

impl ItemDocumentIntrareFurnizori {
    /// The scalar fields of this record under their labels, in the order sent.
    pub open spec fn spec_campuri(self) -> Seq<(Seq<char>, Option<Seq<char>>)> {
        seq![
            ("IDArticol"@, text_of(self.id_articol)),
            ("UM"@, text_of(self.um)),
            ("Cant"@, text_of(self.cant)),
            ("TVANeded"@, text_of(self.tva_neded)),
            ("SimbolCentruCost"@, text_of(self.simbol_centru_cost)),
            ("CodAnalizaNod"@, text_of(self.cod_analiza_nod)),
            ("Observatii"@, text_of(self.observatii)),
            ("NrAuto"@, text_of(self.nr_auto)),
            ("Pret"@, text_of(self.pret)),
            ("PretIntreg"@, text_of(self.pret_intreg)),
            ("Gestiune"@, text_of(self.gestiune)),
            ("LocatieGest"@, text_of(self.locatie_gest)),
            ("Discount"@, text_of(self.discount)),
            ("D1"@, text_of(self.d1)),
            ("D2"@, text_of(self.d2)),
            ("D3"@, text_of(self.d3)),
            ("EXTENSIELINIE"@, text_of(self.extensie_linie)),
        ]
    }

    /// The scalar fields of this record under their labels, in the order sent.
    pub fn campuri(&self) -> (r: Vec<Camp>)
        ensures
            r@.map_values(|c: Camp| c@) == self.spec_campuri(),
    {
        let mut r: Vec<Camp> = Vec::new();
        r.push(Camp { eticheta: "IDArticol", valoare: self.id_articol.clone() });
        r.push(Camp { eticheta: "UM", valoare: self.um.clone() });
        r.push(Camp { eticheta: "Cant", valoare: self.cant.clone() });
        r.push(Camp { eticheta: "TVANeded", valoare: self.tva_neded.clone() });
        r.push(Camp { eticheta: "SimbolCentruCost", valoare: self.simbol_centru_cost.clone() });
        r.push(Camp { eticheta: "CodAnalizaNod", valoare: self.cod_analiza_nod.clone() });
        r.push(Camp { eticheta: "Observatii", valoare: self.observatii.clone() });
        r.push(Camp { eticheta: "NrAuto", valoare: self.nr_auto.clone() });
        r.push(Camp { eticheta: "Pret", valoare: self.pret.clone() });
        r.push(Camp { eticheta: "PretIntreg", valoare: self.pret_intreg.clone() });
        r.push(Camp { eticheta: "Gestiune", valoare: self.gestiune.clone() });
        r.push(Camp { eticheta: "LocatieGest", valoare: self.locatie_gest.clone() });
        r.push(Camp { eticheta: "Discount", valoare: self.discount.clone() });
        r.push(Camp { eticheta: "D1", valoare: self.d1.clone() });
        r.push(Camp { eticheta: "D2", valoare: self.d2.clone() });
        r.push(Camp { eticheta: "D3", valoare: self.d3.clone() });
        r.push(Camp { eticheta: "EXTENSIELINIE", valoare: self.extensie_linie.clone() });
        assert(r@.map_values(|c: Camp| c@) =~= self.spec_campuri());
        r
    }
}

impl DocumentIntrareFurnizori {
    /// The scalar fields of this record under their labels, in the order sent.
    pub open spec fn spec_campuri(self) -> Seq<(Seq<char>, Option<Seq<char>>)> {
        seq![
            ("SerieDoc"@, text_of(self.serie_doc)),
            ("NrDoc"@, text_of(self.nr_doc)),
            ("NrIntreg"@, text_of(self.nr_intreg)),
            ("Operat"@, dn_text(self.operat)),
            ("Data"@, text_of(self.data)),
            ("DataDVI"@, text_of(self.data_dvi)),
            ("SimbolCarnetNIR"@, text_of(self.simbol_carnet_nir)),
            ("NrNIR"@, text_of(self.nr_nir)),
            ("DataNIR"@, text_of(self.data_nir)),
            ("CodFurnizori"@, text_of(self.cod_furnizori)),
            ("Locatie"@, text_of(self.locatie)),
            ("Observatii"@, text_of(self.observatii)),
            ("ObservatiiNIR"@, text_of(self.observatii_nir)),
            ("Autofacturare"@, dn_text(self.autofacturare)),
            ("Moneda"@, text_of(self.moneda)),
            ("Curs"@, text_of(self.curs)),
            ("TipTranzactie"@, text_of(self.tip_tranzactie)),
            ("TVALaIncasare"@, text_of(self.tva_la_incasare)),
            ("TipTVA"@, text_of(self.tip_tva)),
            ("CodSubunitate"@, text_of(self.cod_subunitate)),
            ("Scadenta"@, text_of(self.scadenta)),
            ("ModPlata"@, text_of(self.mod_plata)),
            ("EXTENSIEDOCUMENT"@, text_of(self.extensie_document)),
        ]
    }

    /// The scalar fields of this record under their labels, in the order sent.
    pub fn campuri(&self) -> (r: Vec<Camp>)
        ensures
            r@.map_values(|c: Camp| c@) == self.spec_campuri(),
    {
        let mut r: Vec<Camp> = Vec::new();
        r.push(Camp { eticheta: "SerieDoc", valoare: self.serie_doc.clone() });
        r.push(Camp { eticheta: "NrDoc", valoare: self.nr_doc.clone() });
        r.push(Camp { eticheta: "NrIntreg", valoare: self.nr_intreg.clone() });
        r.push(Camp { eticheta: "Operat", valoare: text_dn(&self.operat) });
        r.push(Camp { eticheta: "Data", valoare: self.data.clone() });
        r.push(Camp { eticheta: "DataDVI", valoare: self.data_dvi.clone() });
        r.push(Camp { eticheta: "SimbolCarnetNIR", valoare: self.simbol_carnet_nir.clone() });
        r.push(Camp { eticheta: "NrNIR", valoare: self.nr_nir.clone() });
        r.push(Camp { eticheta: "DataNIR", valoare: self.data_nir.clone() });
        r.push(Camp { eticheta: "CodFurnizori", valoare: self.cod_furnizori.clone() });
        r.push(Camp { eticheta: "Locatie", valoare: self.locatie.clone() });
        r.push(Camp { eticheta: "Observatii", valoare: self.observatii.clone() });
        r.push(Camp { eticheta: "ObservatiiNIR", valoare: self.observatii_nir.clone() });
        r.push(Camp { eticheta: "Autofacturare", valoare: text_dn(&self.autofacturare) });
        r.push(Camp { eticheta: "Moneda", valoare: self.moneda.clone() });
        r.push(Camp { eticheta: "Curs", valoare: self.curs.clone() });
        r.push(Camp { eticheta: "TipTranzactie", valoare: self.tip_tranzactie.clone() });
        r.push(Camp { eticheta: "TVALaIncasare", valoare: self.tva_la_incasare.clone() });
        r.push(Camp { eticheta: "TipTVA", valoare: self.tip_tva.clone() });
        r.push(Camp { eticheta: "CodSubunitate", valoare: self.cod_subunitate.clone() });
        r.push(Camp { eticheta: "Scadenta", valoare: self.scadenta.clone() });
        r.push(Camp { eticheta: "ModPlata", valoare: self.mod_plata.clone() });
        r.push(Camp { eticheta: "EXTENSIEDOCUMENT", valoare: self.extensie_document.clone() });
        assert(r@.map_values(|c: Camp| c@) =~= self.spec_campuri());
        r
    }
}

impl IntrareFurnizori {
    /// The scalar fields of this record under their labels, in the order sent.
    pub open spec fn spec_campuri(self) -> Seq<(Seq<char>, Option<Seq<char>>)> {
        seq![
            ("TipDocument"@, text_of(self.tip_document)),
            ("AnLucru"@, text_of(self.an_lucru)),
            ("LunaLucru"@, text_of(self.luna_lucru)),
        ]
    }

    /// The scalar fields of this record under their labels, in the order sent.
    pub fn campuri(&self) -> (r: Vec<Camp>)
        ensures
            r@.map_values(|c: Camp| c@) == self.spec_campuri(),
    {
        let mut r: Vec<Camp> = Vec::new();
        r.push(Camp { eticheta: "TipDocument", valoare: self.tip_document.clone() });
        r.push(Camp { eticheta: "AnLucru", valoare: self.an_lucru.clone() });
        r.push(Camp { eticheta: "LunaLucru", valoare: self.luna_lucru.clone() });
        assert(r@.map_values(|c: Camp| c@) =~= self.spec_campuri());
        r
    }
}

/// Every label of a [`Scadenta`]'s wire fields is used once, so reading a label back
/// gives the value of the field sent under it.
pub proof fn lemma_scadenta_round_trip(x: Scadenta)
    ensures
        etichete_distincte(x.spec_campuri()),
        forall|i: int|
            0 <= i < x.spec_campuri().len() ==> citeste(x.spec_campuri(), #[trigger] x.spec_campuri()[i].0)
                == Some(x.spec_campuri()[i].1),
{
    reveal_strlit("Valoare");
    reveal_strlit("Termen");
    reveal_strlit("ModPlata");
    reveal_strlit("SimbolCentruCost");
    assert("Valoare"@.len() == 7);
    assert("Termen"@.len() == 6);
    assert("ModPlata"@.len() == 8);
    assert("SimbolCentruCost"@.len() == 16);
    let t = x.spec_campuri();
    assert(etichete_distincte(t));
    assert forall|i: int| 0 <= i < t.len() implies citeste(t, #[trigger] t[i].0) == Some(t[i].1) by {
        lemma_citeste(t, i);
    }
}

/// Every label of a [`Serii`]'s wire fields is used once, so reading a label back
/// gives the value of the field sent under it.
pub proof fn lemma_serii_round_trip(x: Serii)
    ensures
        etichete_distincte(x.spec_campuri()),
        forall|i: int|
            0 <= i < x.spec_campuri().len() ==> citeste(x.spec_campuri(), #[trigger] x.spec_campuri()[i].0)
                == Some(x.spec_campuri()[i].1),
{
    reveal_strlit("Serie");
    reveal_strlit("Cant");
    reveal_strlit("Observatii");
    reveal_strlit("DataProd");
    assert("Serie"@.len() == 5);
    assert("Cant"@.len() == 4);
    assert("Observatii"@.len() == 10);
    assert("DataProd"@.len() == 8);
    let t = x.spec_campuri();
    assert(etichete_distincte(t));
    assert forall|i: int| 0 <= i < t.len() implies citeste(t, #[trigger] t[i].0) == Some(t[i].1) by {
        lemma_citeste(t, i);
    }
}

/// Every label of a [`ItemDocumentIntrareFurnizori`]'s wire fields is used once, so reading a label back
/// gives the value of the field sent under it.
pub proof fn lemma_item_round_trip(x: ItemDocumentIntrareFurnizori)
    ensures
        etichete_distincte(x.spec_campuri()),
        forall|i: int|
            0 <= i < x.spec_campuri().len() ==> citeste(x.spec_campuri(), #[trigger] x.spec_campuri()[i].0)
                == Some(x.spec_campuri()[i].1),
{
    reveal_strlit("IDArticol");
    reveal_strlit("UM");
    reveal_strlit("Cant");
    reveal_strlit("TVANeded");
    reveal_strlit("SimbolCentruCost");
    reveal_strlit("CodAnalizaNod");
    reveal_strlit("Observatii");
    reveal_strlit("NrAuto");
    reveal_strlit("Pret");
    reveal_strlit("PretIntreg");
    reveal_strlit("Gestiune");
    reveal_strlit("LocatieGest");
    reveal_strlit("Discount");
    reveal_strlit("D1");
    reveal_strlit("D2");
    reveal_strlit("D3");
    reveal_strlit("EXTENSIELINIE");
    assert("IDArticol"@.len() == 9);
    assert("UM"@.len() == 2);
    assert("Cant"@.len() == 4);
    assert("TVANeded"@.len() == 8);
    assert("SimbolCentruCost"@.len() == 16);
    assert("CodAnalizaNod"@.len() == 13);
    assert("Observatii"@.len() == 10);
    assert("NrAuto"@.len() == 6);
    assert("Pret"@.len() == 4);
    assert("PretIntreg"@.len() == 10);
    assert("Gestiune"@.len() == 8);
    assert("LocatieGest"@.len() == 11);
    assert("Discount"@.len() == 8);
    assert("D1"@.len() == 2);
    assert("D2"@.len() == 2);
    assert("D3"@.len() == 2);
    assert("EXTENSIELINIE"@.len() == 13);
    assert("UM"@[0] != "D1"@[0]);
    assert("UM"@[0] != "D2"@[0]);
    assert("UM"@[0] != "D3"@[0]);
    assert("Cant"@[0] != "Pret"@[0]);
    assert("TVANeded"@[0] != "Gestiune"@[0]);
    assert("TVANeded"@[0] != "Discount"@[0]);
    assert("CodAnalizaNod"@[0] != "EXTENSIELINIE"@[0]);
    assert("Observatii"@[0] != "PretIntreg"@[0]);
    assert("Gestiune"@[0] != "Discount"@[0]);
    assert("D1"@[1] != "D2"@[1]);
    assert("D1"@[1] != "D3"@[1]);
    assert("D2"@[1] != "D3"@[1]);
    let t = x.spec_campuri();
    assert(etichete_distincte(t));
    assert forall|i: int| 0 <= i < t.len() implies citeste(t, #[trigger] t[i].0) == Some(t[i].1) by {
        lemma_citeste(t, i);
    }
}

/// Every label of a [`DocumentIntrareFurnizori`]'s wire fields is used once, so reading a label back
/// gives the value of the field sent under it.
pub proof fn lemma_document_round_trip(x: DocumentIntrareFurnizori)
    ensures
        etichete_distincte(x.spec_campuri()),
        forall|i: int|
            0 <= i < x.spec_campuri().len() ==> citeste(x.spec_campuri(), #[trigger] x.spec_campuri()[i].0)
                == Some(x.spec_campuri()[i].1),
        dn_from_text(citeste(x.spec_campuri(), "Operat"@).unwrap()) == x.operat,
        dn_from_text(citeste(x.spec_campuri(), "Autofacturare"@).unwrap()) == x.autofacturare,
{
    reveal_strlit("Da");
    reveal_strlit("Nu");
    assert("Da"@[0] != "Nu"@[0]);
    reveal_strlit("SerieDoc");
    reveal_strlit("NrDoc");
    reveal_strlit("NrIntreg");
    reveal_strlit("Operat");
    reveal_strlit("Data");
    reveal_strlit("DataDVI");
    reveal_strlit("SimbolCarnetNIR");
    reveal_strlit("NrNIR");
    reveal_strlit("DataNIR");
    reveal_strlit("CodFurnizori");
    reveal_strlit("Locatie");
    reveal_strlit("Observatii");
    reveal_strlit("ObservatiiNIR");
    reveal_strlit("Autofacturare");
    reveal_strlit("Moneda");
    reveal_strlit("Curs");
    reveal_strlit("TipTranzactie");
    reveal_strlit("TVALaIncasare");
    reveal_strlit("TipTVA");
    reveal_strlit("CodSubunitate");
    reveal_strlit("Scadenta");
    reveal_strlit("ModPlata");
    reveal_strlit("EXTENSIEDOCUMENT");
    assert("SerieDoc"@.len() == 8);
    assert("NrDoc"@.len() == 5);
    assert("NrIntreg"@.len() == 8);
    assert("Operat"@.len() == 6);
    assert("Data"@.len() == 4);
    assert("DataDVI"@.len() == 7);
    assert("SimbolCarnetNIR"@.len() == 15);
    assert("NrNIR"@.len() == 5);
    assert("DataNIR"@.len() == 7);
    assert("CodFurnizori"@.len() == 12);
    assert("Locatie"@.len() == 7);
    assert("Observatii"@.len() == 10);
    assert("ObservatiiNIR"@.len() == 13);
    assert("Autofacturare"@.len() == 13);
    assert("Moneda"@.len() == 6);
    assert("Curs"@.len() == 4);
    assert("TipTranzactie"@.len() == 13);
    assert("TVALaIncasare"@.len() == 13);
    assert("TipTVA"@.len() == 6);
    assert("CodSubunitate"@.len() == 13);
    assert("Scadenta"@.len() == 8);
    assert("ModPlata"@.len() == 8);
    assert("EXTENSIEDOCUMENT"@.len() == 16);
    assert("SerieDoc"@[0] != "NrIntreg"@[0]);
    assert("SerieDoc"@[1] != "Scadenta"@[1]);
    assert("SerieDoc"@[0] != "ModPlata"@[0]);
    assert("NrDoc"@[2] != "NrNIR"@[2]);
    assert("NrIntreg"@[0] != "Scadenta"@[0]);
    assert("NrIntreg"@[0] != "ModPlata"@[0]);
    assert("Operat"@[0] != "Moneda"@[0]);
    assert("Operat"@[0] != "TipTVA"@[0]);
    assert("Data"@[0] != "Curs"@[0]);
    assert("DataDVI"@[4] != "DataNIR"@[4]);
    assert("DataDVI"@[0] != "Locatie"@[0]);
    assert("DataNIR"@[0] != "Locatie"@[0]);
    assert("ObservatiiNIR"@[0] != "Autofacturare"@[0]);
    assert("ObservatiiNIR"@[0] != "TipTranzactie"@[0]);
    assert("ObservatiiNIR"@[0] != "TVALaIncasare"@[0]);
    assert("ObservatiiNIR"@[0] != "CodSubunitate"@[0]);
    assert("Autofacturare"@[0] != "TipTranzactie"@[0]);
    assert("Autofacturare"@[0] != "TVALaIncasare"@[0]);
    assert("Autofacturare"@[0] != "CodSubunitate"@[0]);
    assert("Moneda"@[0] != "TipTVA"@[0]);
    assert("TipTranzactie"@[1] != "TVALaIncasare"@[1]);
    assert("TipTranzactie"@[0] != "CodSubunitate"@[0]);
    assert("TVALaIncasare"@[0] != "CodSubunitate"@[0]);
    assert("Scadenta"@[0] != "ModPlata"@[0]);
    let t = x.spec_campuri();
    assert(etichete_distincte(t));
    assert forall|i: int| 0 <= i < t.len() implies citeste(t, #[trigger] t[i].0) == Some(t[i].1) by {
        lemma_citeste(t, i);
    }
    lemma_citeste(t, 3);
    assert(t[3].0 == "Operat"@);
    lemma_citeste(t, 13);
    assert(t[13].0 == "Autofacturare"@);
}

/// Every label of a [`IntrareFurnizori`]'s wire fields is used once, so reading a label back
/// gives the value of the field sent under it.
pub proof fn lemma_intrare_round_trip(x: IntrareFurnizori)
    ensures
        etichete_distincte(x.spec_campuri()),
        forall|i: int|
            0 <= i < x.spec_campuri().len() ==> citeste(x.spec_campuri(), #[trigger] x.spec_campuri()[i].0)
                == Some(x.spec_campuri()[i].1),
{
    reveal_strlit("TipDocument");
    reveal_strlit("AnLucru");
    reveal_strlit("LunaLucru");
    assert("TipDocument"@.len() == 11);
    assert("AnLucru"@.len() == 7);
    assert("LunaLucru"@.len() == 9);
    let t = x.spec_campuri();
    assert(etichete_distincte(t));
    assert forall|i: int| 0 <= i < t.len() implies citeste(t, #[trigger] t[i].0) == Some(t[i].1) by {
        lemma_citeste(t, i);
    }
}

} // verus!
