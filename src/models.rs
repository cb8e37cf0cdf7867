//! Records of a supplier intake and the builders that assemble them.
use vstd::prelude::*;

use crate::mod_plata::{moneda_acceptata, monede_acceptate};
use crate::tip_document::{tip_document_acceptat, tipuri_document};

verus! {

/// A yes/no value, sent as one of two fixed words.
#[derive(Debug, Clone)]
pub enum DN {
    Da,
    Nu,
}

/// Why a builder refused to produce its record.
#[derive(Debug, PartialEq, Eq)]
pub enum BuildError {
    /// A field that the record requires was never given to the builder.
    MissingRequiredField(&'static str),
    /// The currency is not one of the accepted codes.
    InvalidCurrency { moneda: String },
    /// The document has no lines.
    EmptyLineItems,
    /// The document type is not one of the accepted labels.
    InvalidDocumentType { tip_document: String },
    /// The intake has no documents.
    EmptyDocuments,
}

/// A payment deadline: one installment of a payment schedule.
#[derive(Debug, Clone)]
pub struct Scadenta {
    pub valoare: Option<String>,
    pub termen: Option<String>,
    pub mod_plata: Option<String>,
    pub simbol_centru_cost: Option<String>,
}

/// Lot series details of a line item.
#[derive(Debug, Clone)]
pub struct Serii {
    pub serie: Option<String>,
    pub cant: Option<String>,
    pub observatii: Option<String>,
    pub data_prod: Option<String>,
}

/// One line of a supplier intake document.
#[derive(Debug, Clone)]
pub struct ItemDocumentIntrareFurnizori {
    pub id_articol: Option<String>,
    pub um: Option<String>,
    pub cant: Option<String>,
    pub tva_neded: Option<String>,
    pub simbol_centru_cost: Option<String>,
    pub cod_analiza_nod: Option<String>,
    pub observatii: Option<String>,
    pub nr_auto: Option<String>,
    pub serii: Option<Vec<Serii>>,
    pub pret: Option<String>,
    pub pret_intreg: Option<String>,
    pub gestiune: Option<String>,
    pub locatie_gest: Option<String>,
    pub discount: Option<String>,
    pub d1: Option<String>,
    pub d2: Option<String>,
    pub d3: Option<String>,
    pub extensie_linie: Option<String>,
}

/// A supplier intake document with its lines.
#[derive(Debug, Clone)]
pub struct DocumentIntrareFurnizori {
    pub serie_doc: Option<String>,
    pub nr_doc: Option<String>,
    pub nr_intreg: Option<String>,
    pub operat: Option<DN>,
    pub data: Option<String>,
    pub data_dvi: Option<String>,
    pub simbol_carnet_nir: Option<String>,
    pub nr_nir: Option<String>,
    pub data_nir: Option<String>,
    pub cod_furnizori: Option<String>,
    pub locatie: Option<String>,
    pub observatii: Option<String>,
    pub observatii_nir: Option<String>,
    pub autofacturare: Option<DN>,
    pub moneda: Option<String>,
    pub curs: Option<String>,
    pub tip_tranzactie: Option<String>,
    pub tva_la_incasare: Option<String>,
    pub tip_tva: Option<String>,
    pub cod_subunitate: Option<String>,
    pub scadenta: Option<String>,
    pub mod_plata: Option<String>,
    pub scadente: Option<Vec<Scadenta>>,
    pub extensie_document: Option<String>,
    pub items: Vec<ItemDocumentIntrareFurnizori>,
}

/// A supplier intake: the unit sent to the accounting server.
#[derive(Debug, Clone)]
pub struct IntrareFurnizori {
    pub tip_document: Option<String>,
    pub an_lucru: Option<String>,
    pub luna_lucru: Option<String>,
    pub documente: Vec<DocumentIntrareFurnizori>,
}

/// Gathers the fields of a [`Scadenta`] one at a time; [`ScadentaBuilder::build`] makes the record.
#[derive(Debug, Clone)]
pub struct ScadentaBuilder {
    pub valoare: Option<String>,
    pub termen: Option<String>,
    pub mod_plata: Option<String>,
    pub simbol_centru_cost: Option<String>,
}

impl Default for ScadentaBuilder {
    /// A builder with no field given.
    fn default() -> (r: Self)
        ensures
            r == ScadentaBuilder::spec_default(),
    {
        ScadentaBuilder {
            valoare: None,
            termen: None,
            mod_plata: None,
            simbol_centru_cost: None,
        }
    }
}

impl ScadentaBuilder {
    /// A builder with no field given.
    pub open spec fn spec_default() -> Self {
        ScadentaBuilder {
            valoare: None,
            termen: None,
            mod_plata: None,
            simbol_centru_cost: None,
        }
    }

    /// Gives `valoare`.
    pub fn valoare(self, value: Option<String>) -> (r: Self)
        ensures
            r == (ScadentaBuilder { valoare: value, ..self }),
    {
        ScadentaBuilder { valoare: value, ..self }
    }

    /// Gives `termen`.
    pub fn termen(self, value: Option<String>) -> (r: Self)
        ensures
            r == (ScadentaBuilder { termen: value, ..self }),
    {
        ScadentaBuilder { termen: value, ..self }
    }

    /// Gives `mod_plata`.
    pub fn mod_plata(self, value: Option<String>) -> (r: Self)
        ensures
            r == (ScadentaBuilder { mod_plata: value, ..self }),
    {
        ScadentaBuilder { mod_plata: value, ..self }
    }

    /// Gives `simbol_centru_cost`.
    pub fn simbol_centru_cost(self, value: Option<String>) -> (r: Self)
        ensures
            r == (ScadentaBuilder { simbol_centru_cost: value, ..self }),
    {
        ScadentaBuilder { simbol_centru_cost: value, ..self }
    }

    /// The record that this builder holds.
    pub open spec fn record(self) -> Scadenta {
        Scadenta {
            valoare: self.valoare,
            termen: self.termen,
            mod_plata: self.mod_plata,
            simbol_centru_cost: self.simbol_centru_cost,
        }
    }

    /// Makes the record; every field is optional, so this cannot fail.
    pub fn build(self) -> (r: Scadenta)
        ensures
            r == self.record(),
    {
        Scadenta {
            valoare: self.valoare,
            termen: self.termen,
            mod_plata: self.mod_plata,
            simbol_centru_cost: self.simbol_centru_cost,
        }
    }
}

/// Gathers the fields of a [`Serii`] one at a time; [`SeriiBuilder::build`] makes the record.
#[derive(Debug, Clone)]
pub struct SeriiBuilder {
    pub serie: Option<String>,
    pub cant: Option<String>,
    pub observatii: Option<String>,
    pub data_prod: Option<String>,
}

impl Default for SeriiBuilder {
    /// A builder with no field given.
    fn default() -> (r: Self)
        ensures
            r == SeriiBuilder::spec_default(),
    {
        SeriiBuilder {
            serie: None,
            cant: None,
            observatii: None,
            data_prod: None,
        }
    }
}

impl SeriiBuilder {
    /// A builder with no field given.
    pub open spec fn spec_default() -> Self {
        SeriiBuilder {
            serie: None,
            cant: None,
            observatii: None,
            data_prod: None,
        }
    }

    /// Gives `serie`.
    pub fn serie(self, value: Option<String>) -> (r: Self)
        ensures
            r == (SeriiBuilder { serie: value, ..self }),
    {
        SeriiBuilder { serie: value, ..self }
    }

    /// Gives `cant`.
    pub fn cant(self, value: Option<String>) -> (r: Self)
        ensures
            r == (SeriiBuilder { cant: value, ..self }),
    {
        SeriiBuilder { cant: value, ..self }
    }

    /// Gives `observatii`.
    pub fn observatii(self, value: Option<String>) -> (r: Self)
        ensures
            r == (SeriiBuilder { observatii: value, ..self }),
    {
        SeriiBuilder { observatii: value, ..self }
    }

    /// Gives `data_prod`.
    pub fn data_prod(self, value: Option<String>) -> (r: Self)
        ensures
            r == (SeriiBuilder { data_prod: value, ..self }),
    {
        SeriiBuilder { data_prod: value, ..self }
    }

    /// The record that this builder holds.
    pub open spec fn record(self) -> Serii {
        Serii {
            serie: self.serie,
            cant: self.cant,
            observatii: self.observatii,
            data_prod: self.data_prod,
        }
    }

    /// Makes the record; every field is optional, so this cannot fail.
    pub fn build(self) -> (r: Serii)
        ensures
            r == self.record(),
    {
        Serii {
            serie: self.serie,
            cant: self.cant,
            observatii: self.observatii,
            data_prod: self.data_prod,
        }
    }
}

/// Gathers the fields of a [`ItemDocumentIntrareFurnizori`] one at a time; [`ItemDocumentIntrareFurnizoriBuilder::build`] makes the record.
#[derive(Debug, Clone)]
pub struct ItemDocumentIntrareFurnizoriBuilder {
    pub id_articol: Option<String>,
    pub um: Option<String>,
    pub cant: Option<String>,
    pub tva_neded: Option<String>,
    pub simbol_centru_cost: Option<String>,
    pub cod_analiza_nod: Option<String>,
    pub observatii: Option<String>,
    pub nr_auto: Option<String>,
    pub serii: Option<Vec<Serii>>,
    pub pret: Option<String>,
    pub pret_intreg: Option<String>,
    pub gestiune: Option<String>,
    pub locatie_gest: Option<String>,
    pub discount: Option<String>,
    pub d1: Option<String>,
    pub d2: Option<String>,
    pub d3: Option<String>,
    pub extensie_linie: Option<String>,
}

impl Default for ItemDocumentIntrareFurnizoriBuilder {
    /// A builder with no field given.
    fn default() -> (r: Self)
        ensures
            r == ItemDocumentIntrareFurnizoriBuilder::spec_default(),
    {
        ItemDocumentIntrareFurnizoriBuilder {
            id_articol: None,
            um: None,
            cant: None,
            tva_neded: None,
            simbol_centru_cost: None,
            cod_analiza_nod: None,
            observatii: None,
            nr_auto: None,
            serii: None,
            pret: None,
            pret_intreg: None,
            gestiune: None,
            locatie_gest: None,
            discount: None,
            d1: None,
            d2: None,
            d3: None,
            extensie_linie: None,
        }
    }
}

impl ItemDocumentIntrareFurnizoriBuilder {
    /// A builder with no field given.
    pub open spec fn spec_default() -> Self {
        ItemDocumentIntrareFurnizoriBuilder {
            id_articol: None,
            um: None,
            cant: None,
            tva_neded: None,
            simbol_centru_cost: None,
            cod_analiza_nod: None,
            observatii: None,
            nr_auto: None,
            serii: None,
            pret: None,
            pret_intreg: None,
            gestiune: None,
            locatie_gest: None,
            discount: None,
            d1: None,
            d2: None,
            d3: None,
            extensie_linie: None,
        }
    }

    /// Gives `id_articol`.
    pub fn id_articol(self, value: Option<String>) -> (r: Self)
        ensures
            r == (ItemDocumentIntrareFurnizoriBuilder { id_articol: value, ..self }),
    {
        ItemDocumentIntrareFurnizoriBuilder { id_articol: value, ..self }
    }

    /// Gives `um`.
    pub fn um(self, value: Option<String>) -> (r: Self)
        ensures
            r == (ItemDocumentIntrareFurnizoriBuilder { um: value, ..self }),
    {
        ItemDocumentIntrareFurnizoriBuilder { um: value, ..self }
    }

    /// Gives `cant`.
    pub fn cant(self, value: Option<String>) -> (r: Self)
        ensures
            r == (ItemDocumentIntrareFurnizoriBuilder { cant: value, ..self }),
    {
        ItemDocumentIntrareFurnizoriBuilder { cant: value, ..self }
    }

    /// Gives `tva_neded`.
    pub fn tva_neded(self, value: Option<String>) -> (r: Self)
        ensures
            r == (ItemDocumentIntrareFurnizoriBuilder { tva_neded: value, ..self }),
    {
        ItemDocumentIntrareFurnizoriBuilder { tva_neded: value, ..self }
    }

    /// Gives `simbol_centru_cost`.
    pub fn simbol_centru_cost(self, value: Option<String>) -> (r: Self)
        ensures
            r == (ItemDocumentIntrareFurnizoriBuilder { simbol_centru_cost: value, ..self }),
    {
        ItemDocumentIntrareFurnizoriBuilder { simbol_centru_cost: value, ..self }
    }

    /// Gives `cod_analiza_nod`.
    pub fn cod_analiza_nod(self, value: Option<String>) -> (r: Self)
        ensures
            r == (ItemDocumentIntrareFurnizoriBuilder { cod_analiza_nod: value, ..self }),
    {
        ItemDocumentIntrareFurnizoriBuilder { cod_analiza_nod: value, ..self }
    }

    /// Gives `observatii`.
    pub fn observatii(self, value: Option<String>) -> (r: Self)
        ensures
            r == (ItemDocumentIntrareFurnizoriBuilder { observatii: value, ..self }),
    {
        ItemDocumentIntrareFurnizoriBuilder { observatii: value, ..self }
    }

    /// Gives `nr_auto`.
    pub fn nr_auto(self, value: Option<String>) -> (r: Self)
        ensures
            r == (ItemDocumentIntrareFurnizoriBuilder { nr_auto: value, ..self }),
    {
        ItemDocumentIntrareFurnizoriBuilder { nr_auto: value, ..self }
    }

    /// Gives `serii`.
    pub fn serii(self, value: Option<Vec<Serii>>) -> (r: Self)
        ensures
            r == (ItemDocumentIntrareFurnizoriBuilder { serii: value, ..self }),
    {
        ItemDocumentIntrareFurnizoriBuilder { serii: value, ..self }
    }

    /// Gives `pret`.
    pub fn pret(self, value: Option<String>) -> (r: Self)
        ensures
            r == (ItemDocumentIntrareFurnizoriBuilder { pret: value, ..self }),
    {
        ItemDocumentIntrareFurnizoriBuilder { pret: value, ..self }
    }

    /// Gives `pret_intreg`.
    pub fn pret_intreg(self, value: Option<String>) -> (r: Self)
        ensures
            r == (ItemDocumentIntrareFurnizoriBuilder { pret_intreg: value, ..self }),
    {
        ItemDocumentIntrareFurnizoriBuilder { pret_intreg: value, ..self }
    }

    /// Gives `gestiune`.
    pub fn gestiune(self, value: Option<String>) -> (r: Self)
        ensures
            r == (ItemDocumentIntrareFurnizoriBuilder { gestiune: value, ..self }),
    {
        ItemDocumentIntrareFurnizoriBuilder { gestiune: value, ..self }
    }

    /// Gives `locatie_gest`.
    pub fn locatie_gest(self, value: Option<String>) -> (r: Self)
        ensures
            r == (ItemDocumentIntrareFurnizoriBuilder { locatie_gest: value, ..self }),
    {
        ItemDocumentIntrareFurnizoriBuilder { locatie_gest: value, ..self }
    }

    /// Gives `discount`.
    pub fn discount(self, value: Option<String>) -> (r: Self)
        ensures
            r == (ItemDocumentIntrareFurnizoriBuilder { discount: value, ..self }),
    {
        ItemDocumentIntrareFurnizoriBuilder { discount: value, ..self }
    }

    /// Gives `d1`.
    pub fn d1(self, value: Option<String>) -> (r: Self)
        ensures
            r == (ItemDocumentIntrareFurnizoriBuilder { d1: value, ..self }),
    {
        ItemDocumentIntrareFurnizoriBuilder { d1: value, ..self }
    }

    /// Gives `d2`.
    pub fn d2(self, value: Option<String>) -> (r: Self)
        ensures
            r == (ItemDocumentIntrareFurnizoriBuilder { d2: value, ..self }),
    {
        ItemDocumentIntrareFurnizoriBuilder { d2: value, ..self }
    }

    /// Gives `d3`.
    pub fn d3(self, value: Option<String>) -> (r: Self)
        ensures
            r == (ItemDocumentIntrareFurnizoriBuilder { d3: value, ..self }),
    {
        ItemDocumentIntrareFurnizoriBuilder { d3: value, ..self }
    }

    /// Gives `extensie_linie`.
    pub fn extensie_linie(self, value: Option<String>) -> (r: Self)
        ensures
            r == (ItemDocumentIntrareFurnizoriBuilder { extensie_linie: value, ..self }),
    {
        ItemDocumentIntrareFurnizoriBuilder { extensie_linie: value, ..self }
    }

    /// The record that this builder holds.
    pub open spec fn record(self) -> ItemDocumentIntrareFurnizori {
        ItemDocumentIntrareFurnizori {
            id_articol: self.id_articol,
            um: self.um,
            cant: self.cant,
            tva_neded: self.tva_neded,
            simbol_centru_cost: self.simbol_centru_cost,
            cod_analiza_nod: self.cod_analiza_nod,
            observatii: self.observatii,
            nr_auto: self.nr_auto,
            serii: self.serii,
            pret: self.pret,
            pret_intreg: self.pret_intreg,
            gestiune: self.gestiune,
            locatie_gest: self.locatie_gest,
            discount: self.discount,
            d1: self.d1,
            d2: self.d2,
            d3: self.d3,
            extensie_linie: self.extensie_linie,
        }
    }

    /// Makes the record; every field is optional, so this cannot fail.
    pub fn build(self) -> (r: ItemDocumentIntrareFurnizori)
        ensures
            r == self.record(),
    {
        ItemDocumentIntrareFurnizori {
            id_articol: self.id_articol,
            um: self.um,
            cant: self.cant,
            tva_neded: self.tva_neded,
            simbol_centru_cost: self.simbol_centru_cost,
            cod_analiza_nod: self.cod_analiza_nod,
            observatii: self.observatii,
            nr_auto: self.nr_auto,
            serii: self.serii,
            pret: self.pret,
            pret_intreg: self.pret_intreg,
            gestiune: self.gestiune,
            locatie_gest: self.locatie_gest,
            discount: self.discount,
            d1: self.d1,
            d2: self.d2,
            d3: self.d3,
            extensie_linie: self.extensie_linie,
        }
    }
}

/// Gathers the fields of a [`DocumentIntrareFurnizori`] one at a time; [`DocumentIntrareFurnizoriBuilder::build`] makes the record.
#[derive(Debug, Clone)]
pub struct DocumentIntrareFurnizoriBuilder {
    pub serie_doc: Option<String>,
    pub nr_doc: Option<String>,
    pub nr_intreg: Option<String>,
    pub operat: Option<DN>,
    pub data: Option<String>,
    pub data_dvi: Option<String>,
    pub simbol_carnet_nir: Option<String>,
    pub nr_nir: Option<String>,
    pub data_nir: Option<String>,
    pub cod_furnizori: Option<String>,
    pub locatie: Option<String>,
    pub observatii: Option<String>,
    pub observatii_nir: Option<String>,
    pub autofacturare: Option<DN>,
    pub moneda: Option<String>,
    pub curs: Option<String>,
    pub tip_tranzactie: Option<String>,
    pub tva_la_incasare: Option<String>,
    pub tip_tva: Option<String>,
    pub cod_subunitate: Option<String>,
    pub scadenta: Option<String>,
    pub mod_plata: Option<String>,
    pub scadente: Option<Vec<Scadenta>>,
    pub extensie_document: Option<String>,
    pub items: Option<Vec<ItemDocumentIntrareFurnizori>>,
}

impl Default for DocumentIntrareFurnizoriBuilder {
    /// A builder with no field given.
    fn default() -> (r: Self)
        ensures
            r == DocumentIntrareFurnizoriBuilder::spec_default(),
    {
        DocumentIntrareFurnizoriBuilder {
            serie_doc: None,
            nr_doc: None,
            nr_intreg: None,
            operat: None,
            data: None,
            data_dvi: None,
            simbol_carnet_nir: None,
            nr_nir: None,
            data_nir: None,
            cod_furnizori: None,
            locatie: None,
            observatii: None,
            observatii_nir: None,
            autofacturare: None,
            moneda: None,
            curs: None,
            tip_tranzactie: None,
            tva_la_incasare: None,
            tip_tva: None,
            cod_subunitate: None,
            scadenta: None,
            mod_plata: None,
            scadente: None,
            extensie_document: None,
            items: None,
        }
    }
}

impl DocumentIntrareFurnizoriBuilder {
    /// A builder with no field given.
    pub open spec fn spec_default() -> Self {
        DocumentIntrareFurnizoriBuilder {
            serie_doc: None,
            nr_doc: None,
            nr_intreg: None,
            operat: None,
            data: None,
            data_dvi: None,
            simbol_carnet_nir: None,
            nr_nir: None,
            data_nir: None,
            cod_furnizori: None,
            locatie: None,
            observatii: None,
            observatii_nir: None,
            autofacturare: None,
            moneda: None,
            curs: None,
            tip_tranzactie: None,
            tva_la_incasare: None,
            tip_tva: None,
            cod_subunitate: None,
            scadenta: None,
            mod_plata: None,
            scadente: None,
            extensie_document: None,
            items: None,
        }
    }

    /// Gives `serie_doc`.
    pub fn serie_doc(self, value: Option<String>) -> (r: Self)
        ensures
            r == (DocumentIntrareFurnizoriBuilder { serie_doc: value, ..self }),
    {
        DocumentIntrareFurnizoriBuilder { serie_doc: value, ..self }
    }

    /// Gives `nr_doc`.
    pub fn nr_doc(self, value: Option<String>) -> (r: Self)
        ensures
            r == (DocumentIntrareFurnizoriBuilder { nr_doc: value, ..self }),
    {
        DocumentIntrareFurnizoriBuilder { nr_doc: value, ..self }
    }

    /// Gives `nr_intreg`.
    pub fn nr_intreg(self, value: Option<String>) -> (r: Self)
        ensures
            r == (DocumentIntrareFurnizoriBuilder { nr_intreg: value, ..self }),
    {
        DocumentIntrareFurnizoriBuilder { nr_intreg: value, ..self }
    }

    /// Gives `operat`.
    pub fn operat(self, value: Option<DN>) -> (r: Self)
        ensures
            r == (DocumentIntrareFurnizoriBuilder { operat: value, ..self }),
    {
        DocumentIntrareFurnizoriBuilder { operat: value, ..self }
    }

    /// Gives `data`.
    pub fn data(self, value: Option<String>) -> (r: Self)
        ensures
            r == (DocumentIntrareFurnizoriBuilder { data: value, ..self }),
    {
        DocumentIntrareFurnizoriBuilder { data: value, ..self }
    }

    /// Gives `data_dvi`.
    pub fn data_dvi(self, value: Option<String>) -> (r: Self)
        ensures
            r == (DocumentIntrareFurnizoriBuilder { data_dvi: value, ..self }),
    {
        DocumentIntrareFurnizoriBuilder { data_dvi: value, ..self }
    }

    /// Gives `simbol_carnet_nir`.
    pub fn simbol_carnet_nir(self, value: Option<String>) -> (r: Self)
        ensures
            r == (DocumentIntrareFurnizoriBuilder { simbol_carnet_nir: value, ..self }),
    {
        DocumentIntrareFurnizoriBuilder { simbol_carnet_nir: value, ..self }
    }

    /// Gives `nr_nir`.
    pub fn nr_nir(self, value: Option<String>) -> (r: Self)
        ensures
            r == (DocumentIntrareFurnizoriBuilder { nr_nir: value, ..self }),
    {
        DocumentIntrareFurnizoriBuilder { nr_nir: value, ..self }
    }

    /// Gives `data_nir`.
    pub fn data_nir(self, value: Option<String>) -> (r: Self)
        ensures
            r == (DocumentIntrareFurnizoriBuilder { data_nir: value, ..self }),
    {
        DocumentIntrareFurnizoriBuilder { data_nir: value, ..self }
    }

    /// Gives `cod_furnizori`.
    pub fn cod_furnizori(self, value: Option<String>) -> (r: Self)
        ensures
            r == (DocumentIntrareFurnizoriBuilder { cod_furnizori: value, ..self }),
    {
        DocumentIntrareFurnizoriBuilder { cod_furnizori: value, ..self }
    }

    /// Gives `locatie`.
    pub fn locatie(self, value: Option<String>) -> (r: Self)
        ensures
            r == (DocumentIntrareFurnizoriBuilder { locatie: value, ..self }),
    {
        DocumentIntrareFurnizoriBuilder { locatie: value, ..self }
    }

    /// Gives `observatii`.
    pub fn observatii(self, value: Option<String>) -> (r: Self)
        ensures
            r == (DocumentIntrareFurnizoriBuilder { observatii: value, ..self }),
    {
        DocumentIntrareFurnizoriBuilder { observatii: value, ..self }
    }

    /// Gives `observatii_nir`.
    pub fn observatii_nir(self, value: Option<String>) -> (r: Self)
        ensures
            r == (DocumentIntrareFurnizoriBuilder { observatii_nir: value, ..self }),
    {
        DocumentIntrareFurnizoriBuilder { observatii_nir: value, ..self }
    }

    /// Gives `autofacturare`.
    pub fn autofacturare(self, value: Option<DN>) -> (r: Self)
        ensures
            r == (DocumentIntrareFurnizoriBuilder { autofacturare: value, ..self }),
    {
        DocumentIntrareFurnizoriBuilder { autofacturare: value, ..self }
    }

    /// Gives `moneda`.
    pub fn moneda(self, value: Option<String>) -> (r: Self)
        ensures
            r == (DocumentIntrareFurnizoriBuilder { moneda: value, ..self }),
    {
        DocumentIntrareFurnizoriBuilder { moneda: value, ..self }
    }

    /// Gives `curs`.
    pub fn curs(self, value: Option<String>) -> (r: Self)
        ensures
            r == (DocumentIntrareFurnizoriBuilder { curs: value, ..self }),
    {
        DocumentIntrareFurnizoriBuilder { curs: value, ..self }
    }

    /// Gives `tip_tranzactie`.
    pub fn tip_tranzactie(self, value: Option<String>) -> (r: Self)
        ensures
            r == (DocumentIntrareFurnizoriBuilder { tip_tranzactie: value, ..self }),
    {
        DocumentIntrareFurnizoriBuilder { tip_tranzactie: value, ..self }
    }

    /// Gives `tva_la_incasare`.
    pub fn tva_la_incasare(self, value: Option<String>) -> (r: Self)
        ensures
            r == (DocumentIntrareFurnizoriBuilder { tva_la_incasare: value, ..self }),
    {
        DocumentIntrareFurnizoriBuilder { tva_la_incasare: value, ..self }
    }

    /// Gives `tip_tva`.
    pub fn tip_tva(self, value: Option<String>) -> (r: Self)
        ensures
            r == (DocumentIntrareFurnizoriBuilder { tip_tva: value, ..self }),
    {
        DocumentIntrareFurnizoriBuilder { tip_tva: value, ..self }
    }

    /// Gives `cod_subunitate`.
    pub fn cod_subunitate(self, value: Option<String>) -> (r: Self)
        ensures
            r == (DocumentIntrareFurnizoriBuilder { cod_subunitate: value, ..self }),
    {
        DocumentIntrareFurnizoriBuilder { cod_subunitate: value, ..self }
    }

    /// Gives `scadenta`.
    pub fn scadenta(self, value: Option<String>) -> (r: Self)
        ensures
            r == (DocumentIntrareFurnizoriBuilder { scadenta: value, ..self }),
    {
        DocumentIntrareFurnizoriBuilder { scadenta: value, ..self }
    }

    /// Gives `mod_plata`.
    pub fn mod_plata(self, value: Option<String>) -> (r: Self)
        ensures
            r == (DocumentIntrareFurnizoriBuilder { mod_plata: value, ..self }),
    {
        DocumentIntrareFurnizoriBuilder { mod_plata: value, ..self }
    }

    /// Gives `scadente`.
    pub fn scadente(self, value: Option<Vec<Scadenta>>) -> (r: Self)
        ensures
            r == (DocumentIntrareFurnizoriBuilder { scadente: value, ..self }),
    {
        DocumentIntrareFurnizoriBuilder { scadente: value, ..self }
    }

    /// Gives `extensie_document`.
    pub fn extensie_document(self, value: Option<String>) -> (r: Self)
        ensures
            r == (DocumentIntrareFurnizoriBuilder { extensie_document: value, ..self }),
    {
        DocumentIntrareFurnizoriBuilder { extensie_document: value, ..self }
    }

    /// Gives `items`.
    pub fn items(self, value: Vec<ItemDocumentIntrareFurnizori>) -> (r: Self)
        ensures
            r == (DocumentIntrareFurnizoriBuilder { items: Some(value), ..self }),
    {
        DocumentIntrareFurnizoriBuilder { items: Some(value), ..self }
    }

    /// The record that this builder holds, with `items` as given.
    pub open spec fn record(self, items: Vec<ItemDocumentIntrareFurnizori>) -> DocumentIntrareFurnizori {
        DocumentIntrareFurnizori {
            serie_doc: self.serie_doc,
            nr_doc: self.nr_doc,
            nr_intreg: self.nr_intreg,
            operat: self.operat,
            data: self.data,
            data_dvi: self.data_dvi,
            simbol_carnet_nir: self.simbol_carnet_nir,
            nr_nir: self.nr_nir,
            data_nir: self.data_nir,
            cod_furnizori: self.cod_furnizori,
            locatie: self.locatie,
            observatii: self.observatii,
            observatii_nir: self.observatii_nir,
            autofacturare: self.autofacturare,
            moneda: self.moneda,
            curs: self.curs,
            tip_tranzactie: self.tip_tranzactie,
            tva_la_incasare: self.tva_la_incasare,
            tip_tva: self.tip_tva,
            cod_subunitate: self.cod_subunitate,
            scadenta: self.scadenta,
            mod_plata: self.mod_plata,
            scadente: self.scadente,
            extensie_document: self.extensie_document,
            items: items,
        }
    }

    /// What [`DocumentIntrareFurnizoriBuilder::build`] returns: a missing `items` first, then the outcome of
    /// [`DocumentIntrareFurnizoriBuilder::validate`], then the record.
    pub open spec fn spec_build(self) -> Result<DocumentIntrareFurnizori, BuildError> {
        match self.items {
            None => Err(BuildError::MissingRequiredField("items")),
            Some(items) => match self.spec_validate() {
                Err(e) => Err(e),
                Ok(_) => Ok(self.record(items)),
            },
        }
    }

    /// Checks the business rules and makes the record.
    pub fn build(self) -> (r: Result<DocumentIntrareFurnizori, BuildError>)
        ensures
            r == self.spec_build(),
    {
        if self.items.is_none() {
            return Err(BuildError::MissingRequiredField("items"));
        }
        if let Err(e) = self.validate() {
            return Err(e);
        }
        let DocumentIntrareFurnizoriBuilder {
            serie_doc,
            nr_doc,
            nr_intreg,
            operat,
            data,
            data_dvi,
            simbol_carnet_nir,
            nr_nir,
            data_nir,
            cod_furnizori,
            locatie,
            observatii,
            observatii_nir,
            autofacturare,
            moneda,
            curs,
            tip_tranzactie,
            tva_la_incasare,
            tip_tva,
            cod_subunitate,
            scadenta,
            mod_plata,
            scadente,
            extensie_document,
            items,
        } = self;
        match items {
            Some(items) => Ok(DocumentIntrareFurnizori {
                serie_doc,
                nr_doc,
                nr_intreg,
                operat,
                data,
                data_dvi,
                simbol_carnet_nir,
                nr_nir,
                data_nir,
                cod_furnizori,
                locatie,
                observatii,
                observatii_nir,
                autofacturare,
                moneda,
                curs,
                tip_tranzactie,
                tva_la_incasare,
                tip_tva,
                cod_subunitate,
                scadenta,
                mod_plata,
                scadente,
                extensie_document,
                items,
            }),
            None => Err(BuildError::MissingRequiredField("items")),
        }
    }
}

/// Gathers the fields of a [`IntrareFurnizori`] one at a time; [`IntrareFurnizoriBuilder::build`] makes the record.
#[derive(Debug, Clone)]
pub struct IntrareFurnizoriBuilder {
    pub tip_document: Option<String>,
    pub an_lucru: Option<String>,
    pub luna_lucru: Option<String>,
    pub documente: Option<Vec<DocumentIntrareFurnizori>>,
}

impl Default for IntrareFurnizoriBuilder {
    /// A builder with no field given.
    fn default() -> (r: Self)
        ensures
            r == IntrareFurnizoriBuilder::spec_default(),
    {
        IntrareFurnizoriBuilder {
            tip_document: None,
            an_lucru: None,
            luna_lucru: None,
            documente: None,
        }
    }
}

impl IntrareFurnizoriBuilder {
    /// A builder with no field given.
    pub open spec fn spec_default() -> Self {
        IntrareFurnizoriBuilder {
            tip_document: None,
            an_lucru: None,
            luna_lucru: None,
            documente: None,
        }
    }

    /// Gives `tip_document`.
    pub fn tip_document(self, value: Option<String>) -> (r: Self)
        ensures
            r == (IntrareFurnizoriBuilder { tip_document: value, ..self }),
    {
        IntrareFurnizoriBuilder { tip_document: value, ..self }
    }

    /// Gives `an_lucru`.
    pub fn an_lucru(self, value: Option<String>) -> (r: Self)
        ensures
            r == (IntrareFurnizoriBuilder { an_lucru: value, ..self }),
    {
        IntrareFurnizoriBuilder { an_lucru: value, ..self }
    }

    /// Gives `luna_lucru`.
    pub fn luna_lucru(self, value: Option<String>) -> (r: Self)
        ensures
            r == (IntrareFurnizoriBuilder { luna_lucru: value, ..self }),
    {
        IntrareFurnizoriBuilder { luna_lucru: value, ..self }
    }

    /// Gives `documente`.
    pub fn documente(self, value: Vec<DocumentIntrareFurnizori>) -> (r: Self)
        ensures
            r == (IntrareFurnizoriBuilder { documente: Some(value), ..self }),
    {
        IntrareFurnizoriBuilder { documente: Some(value), ..self }
    }

    /// The record that this builder holds, with `documente` as given.
    pub open spec fn record(self, documente: Vec<DocumentIntrareFurnizori>) -> IntrareFurnizori {
        IntrareFurnizori {
            tip_document: self.tip_document,
            an_lucru: self.an_lucru,
            luna_lucru: self.luna_lucru,
            documente: documente,
        }
    }

    /// What [`IntrareFurnizoriBuilder::build`] returns: a missing `documente` first, then the outcome of
    /// [`IntrareFurnizoriBuilder::validate`], then the record.
    pub open spec fn spec_build(self) -> Result<IntrareFurnizori, BuildError> {
        match self.documente {
            None => Err(BuildError::MissingRequiredField("documente")),
            Some(documente) => match self.spec_validate() {
                Err(e) => Err(e),
                Ok(_) => Ok(self.record(documente)),
            },
        }
    }

    /// Checks the business rules and makes the record.
    pub fn build(self) -> (r: Result<IntrareFurnizori, BuildError>)
        ensures
            r == self.spec_build(),
    {
        if self.documente.is_none() {
            return Err(BuildError::MissingRequiredField("documente"));
        }
        if let Err(e) = self.validate() {
            return Err(e);
        }
        let IntrareFurnizoriBuilder {
            tip_document,
            an_lucru,
            luna_lucru,
            documente,
        } = self;
        match documente {
            Some(documente) => Ok(IntrareFurnizori {
                tip_document,
                an_lucru,
                luna_lucru,
                documente,
            }),
            None => Err(BuildError::MissingRequiredField("documente")),
        }
    }
}

impl DocumentIntrareFurnizoriBuilder {
    /// Whether the currency, if given, is one of the accepted codes.
    pub open spec fn moneda_valida(self) -> bool {
        match self.moneda {
            Some(m) => monede_acceptate().contains(m@),
            None => true,
        }
    }

    /// What [`DocumentIntrareFurnizoriBuilder::validate`] returns: the currency is checked
    /// before the lines.
    pub open spec fn spec_validate(self) -> Result<(), BuildError> {
        if !self.moneda_valida() {
            Err(BuildError::InvalidCurrency { moneda: self.moneda.unwrap() })
        } else if self.items is Some && self.items.unwrap().len() == 0 {
            Err(BuildError::EmptyLineItems)
        } else {
            Ok(())
        }
    }

    /// Checks the business rules of a document on the fields given so far.
    pub fn validate(&self) -> (r: Result<(), BuildError>)
        ensures
            r == self.spec_validate(),
    {
        if let Some(moneda) = &self.moneda {
            if !moneda_acceptata(moneda.as_str()) {
                return Err(BuildError::InvalidCurrency { moneda: moneda.clone() });
            }
        }
        if let Some(items) = &self.items {
            if items.len() == 0 {
                return Err(BuildError::EmptyLineItems);
            }
        }
        Ok(())
    }
}

impl IntrareFurnizoriBuilder {
    /// Whether the document type, if given, is one of the accepted labels.
    pub open spec fn tip_document_valid(self) -> bool {
        match self.tip_document {
            Some(t) => tipuri_document().contains(t@),
            None => true,
        }
    }

    /// What [`IntrareFurnizoriBuilder::validate`] returns: the document type is checked
    /// before the documents.
    pub open spec fn spec_validate(self) -> Result<(), BuildError> {
        if !self.tip_document_valid() {
            Err(BuildError::InvalidDocumentType { tip_document: self.tip_document.unwrap() })
        } else if self.documente is Some && self.documente.unwrap().len() == 0 {
            Err(BuildError::EmptyDocuments)
        } else {
            Ok(())
        }
    }

    /// Checks the business rules of an intake on the fields given so far.
    pub fn validate(&self) -> (r: Result<(), BuildError>)
        ensures
            r == self.spec_validate(),
    {
        if let Some(tip_document) = &self.tip_document {
            if !tip_document_acceptat(tip_document.as_str()) {
                return Err(BuildError::InvalidDocumentType { tip_document: tip_document.clone() });
            }
        }
        if let Some(documente) = &self.documente {
            if documente.len() == 0 {
                return Err(BuildError::EmptyDocuments);
            }
        }
        Ok(())
    }
}


} // verus!
