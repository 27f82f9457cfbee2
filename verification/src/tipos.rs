//! The data model: coordinates, point features, area candidates, and the
//! tagged union that stands for the element currently being parsed.

use vstd::prelude::*;

use crate::texto::texto_igual;

verus! {

/// A geographic coordinate in WGS84 degrees.
///
/// Each component keeps the decimal text the value was read from (`x` the
/// longitude, `y` the latitude). The ingestion only stores texts that the
/// floating-point grammar accepts and writes `"0"` for a missing or
/// unparsable attribute; turning the text into a machine floating-point
/// number is left to the output formatter, outside this crate.
#[derive(Clone, Debug)]
pub struct Coordenada {
    pub x: String,
    pub y: String,
}

/// The mathematical value of a [`Coordenada`]: its two component texts.
pub struct CoordenadaEspec {
    pub x: Seq<char>,
    pub y: Seq<char>,
}

impl View for Coordenada {
    type V = CoordenadaEspec;

    open spec fn view(&self) -> CoordenadaEspec {
        CoordenadaEspec { x: self.x@, y: self.y@ }
    }
}

impl Coordenada {
    /// Copies the coordinate, component by component.
    pub fn duplicar(&self) -> (c: Coordenada)
        ensures
            c == *self,
    {
        Coordenada { x: self.x.clone(), y: self.y.clone() }
    }
}

/// A point feature: a plain node while it only carries a coordinate for the
/// side table, a medical result once its flag is set.
#[derive(Clone, Debug)]
pub struct NoOSM {
    pub coordenada: Coordenada,
    pub id: i64,
    pub name: Option<String>,
    pub e_medicina: bool,
}

/// The mathematical value of a [`NoOSM`].
pub struct NoEspec {
    pub coordenada: CoordenadaEspec,
    pub id: i64,
    pub nome: Option<Seq<char>>,
    pub medicina: bool,
}

impl View for NoOSM {
    type V = NoEspec;

    open spec fn view(&self) -> NoEspec {
        NoEspec {
            coordenada: self.coordenada@,
            id: self.id,
            nome: match self.name {
                Some(s) => Some(s@),
                None => None,
            },
            medicina: self.e_medicina,
        }
    }
}

impl NoOSM {
    /// Builds a node from its parts; the coordinate stores `x` as the
    /// longitude and `y` as the latitude.
    pub fn novo(
        id: i64,
        name: Option<String>,
        latitude: String,
        longitude: String,
        e_medicina: Option<bool>,
    ) -> (no: Self)
        ensures
            no.id == id,
            no.name == name,
            no.coordenada.x == longitude,
            no.coordenada.y == latitude,
            no.e_medicina == (match e_medicina {
                Some(b) => b,
                None => false,
            }),
    {
        let coordenada = Coordenada { x: longitude, y: latitude };
        NoOSM {
            coordenada,
            id,
            name,
            e_medicina: match e_medicina {
                Some(b) => b,
                None => false,
            },
        }
    }

    /// Marks the node as a medical facility; never reverts.
    pub fn confirmar_medicina(&mut self)
        ensures
            final(self).e_medicina,
            final(self).id == old(self).id,
            final(self).name == old(self).name,
            final(self).coordenada == old(self).coordenada,
    {
        self.e_medicina = true;
    }

    /// Reads the medical flag.
    pub fn e_medicina(&self) -> (r: bool)
        ensures
            r == self.e_medicina,
    {
        self.e_medicina
    }

    /// Reads the node identifier.
    pub fn id(&self) -> (r: i64)
        ensures
            r == self.id,
    {
        self.id
    }

    /// Copies the coordinate out of the node.
    pub fn coordenada(&self) -> (c: Coordenada)
        ensures
            c == self.coordenada,
    {
        self.coordenada.duplicar()
    }

    /// Sets the node's name.
    pub fn informar_nome(&mut self, nome: String)
        ensures
            final(self).name == Some(nome),
            final(self).id == old(self).id,
            final(self).coordenada == old(self).coordenada,
            final(self).e_medicina == old(self).e_medicina,
    {
        self.name = Some(nome);
    }

    /// The header line of the semicolon-delimited output.
    pub fn titulo_csv() -> (r: &'static str)
        ensures
            r@ == "Nome;Ponto_WKT;ID_OSM"@,
    {
        "Nome;Ponto_WKT;ID_OSM"
    }
}

/// An area candidate: a `way` element under construction, with the node ids
/// it references in document order.
#[derive(Clone, Debug)]
pub struct AreaOSM {
    pub lista_nos: Vec<i64>,
    pub id: i64,
    pub name: Option<String>,
    pub e_medicina: bool,
}

/// The mathematical value of an [`AreaOSM`].
pub struct AreaEspec {
    pub refs: Seq<i64>,
    pub id: i64,
    pub nome: Option<Seq<char>>,
    pub medicina: bool,
}

impl View for AreaOSM {
    type V = AreaEspec;

    open spec fn view(&self) -> AreaEspec {
        AreaEspec {
            refs: self.lista_nos@,
            id: self.id,
            nome: match self.name {
                Some(s) => Some(s@),
                None => None,
            },
            medicina: self.e_medicina,
        }
    }
}

impl AreaOSM {
    /// Builds an area candidate with an empty reference list.
    pub fn novo(id: i64, name: Option<String>, e_medicina: Option<bool>) -> (area: Self)
        ensures
            area.lista_nos@ == Seq::<i64>::empty(),
            area.id == id,
            area.name == name,
            area.e_medicina == (match e_medicina {
                Some(b) => b,
                None => false,
            }),
    {
        AreaOSM {
            lista_nos: Vec::new(),
            id,
            name,
            e_medicina: match e_medicina {
                Some(b) => b,
                None => false,
            },
        }
    }

    /// Marks the area as a medical facility; never reverts.
    pub fn confirmar_medicina(&mut self)
        ensures
            final(self).e_medicina,
            final(self).lista_nos == old(self).lista_nos,
            final(self).id == old(self).id,
            final(self).name == old(self).name,
    {
        self.e_medicina = true;
    }

    /// Reads the medical flag.
    pub fn e_medicina(&self) -> (r: bool)
        ensures
            r == self.e_medicina,
    {
        self.e_medicina
    }

    /// Appends one referenced node id, in encounter order.
    pub fn adicionar_no_coordenada(&mut self, no: i64)
        ensures
            final(self).lista_nos@ == old(self).lista_nos@.push(no),
            final(self).id == old(self).id,
            final(self).name == old(self).name,
            final(self).e_medicina == old(self).e_medicina,
    {
        self.lista_nos.push(no);
    }

    /// Sets the area's name.
    pub fn informar_nome(&mut self, nome: String)
        ensures
            final(self).name == Some(nome),
            final(self).lista_nos == old(self).lista_nos,
            final(self).id == old(self).id,
            final(self).e_medicina == old(self).e_medicina,
    {
        self.name = Some(nome);
    }

    /// The referenced node ids, in document order.
    pub fn ref_nos(&self) -> (r: &[i64])
        ensures
            r@ == self.lista_nos@,
    {
        self.lista_nos.as_slice()
    }

    /// The area's name, if one was given.
    pub fn nome(&self) -> (r: Option<&String>)
        ensures
            match (r, self.name) {
                (Some(a), Some(b)) => *a == b,
                (None, None) => true,
                _ => false,
            },
    {
        self.name.as_ref()
    }

    /// The area's identifier.
    pub fn id(&self) -> (r: &i64)
        ensures
            *r == self.id,
    {
        &self.id
    }
}

/// The element currently being parsed: a node, an area, or nothing. The slot
/// is replaced wholesale when a new top-level element starts and reset when
/// an element closes; `tag` and `nd` children mutate it without changing its
/// variant.
#[derive(Debug)]
pub enum FeatureOSM {
    No(NoOSM),
    Area(AreaOSM),
    Indefinido,
}

/// The mathematical value of a [`FeatureOSM`].
pub enum FeatureEspec {
    No(NoEspec),
    Area(AreaEspec),
    Indefinido,
}

impl View for FeatureOSM {
    type V = FeatureEspec;

    open spec fn view(&self) -> FeatureEspec {
        match self {
            FeatureOSM::No(no) => FeatureEspec::No(no@),
            FeatureOSM::Area(area) => FeatureEspec::Area(area@),
            FeatureOSM::Indefinido => FeatureEspec::Indefinido,
        }
    }
}

/// Whether the in-progress feature carries the medical flag.
pub open spec fn espec_e_medicina(f: FeatureEspec) -> bool {
    match f {
        FeatureEspec::No(no) => no.medicina,
        FeatureEspec::Area(area) => area.medicina,
        FeatureEspec::Indefinido => false,
    }
}

/// Whether a `tag` child with key `chave` and value `valor` marks a feature
/// as a healthcare facility: any `healthcare` key does, and so does an
/// `amenity` key with one of the qualifying values. Matching is exact and
/// case-sensitive.
pub open spec fn eh_gatilho_medicina(chave: Seq<char>, valor: Seq<char>) -> bool {
    ||| chave == "healthcare"@
    ||| (chave == "amenity"@ && {
        ||| valor == "clinic"@
        ||| valor == "doctors"@
        ||| valor == "nursing_home"@
        ||| valor == "hospital"@
        ||| valor == "pharmacy"@
        ||| valor == "social_facility"@
    })
}

/// What one `tag` child does to the in-progress feature: a `name` key sets
/// the name, a medical trigger sets the flag, anything else changes nothing.
pub open spec fn espec_add_tag(f: FeatureEspec, chave: Seq<char>, valor: Seq<char>) -> FeatureEspec {
    if chave == "name"@ {
        match f {
            FeatureEspec::No(no) => FeatureEspec::No(NoEspec { nome: Some(valor), ..no }),
            FeatureEspec::Area(area) => FeatureEspec::Area(AreaEspec { nome: Some(valor), ..area }),
            FeatureEspec::Indefinido => FeatureEspec::Indefinido,
        }
    } else if eh_gatilho_medicina(chave, valor) {
        match f {
            FeatureEspec::No(no) => FeatureEspec::No(NoEspec { medicina: true, ..no }),
            FeatureEspec::Area(area) => FeatureEspec::Area(AreaEspec { medicina: true, ..area }),
            FeatureEspec::Indefinido => FeatureEspec::Indefinido,
        }
    } else {
        f
    }
}

/// Decides whether a tag key and value form a medical trigger.
pub fn eh_gatilho(chave: &str, valor: &str) -> (r: bool)
    ensures
        r == eh_gatilho_medicina(chave@, valor@),
{
    if texto_igual(chave, "healthcare") {
        true
    } else if texto_igual(chave, "amenity") {
        texto_igual(valor, "clinic") || texto_igual(valor, "doctors")
            || texto_igual(valor, "nursing_home") || texto_igual(valor, "hospital")
            || texto_igual(valor, "pharmacy") || texto_igual(valor, "social_facility")
    } else {
        false
    }
}

impl FeatureOSM {
    /// Reads the medical flag of whatever feature is in progress.
    pub fn e_medicina(&self) -> (r: bool)
        ensures
            r == espec_e_medicina(self@),
    {
        match self {
            FeatureOSM::No(no) => no.e_medicina(),
            FeatureOSM::Area(area) => area.e_medicina(),
            FeatureOSM::Indefinido => false,
        }
    }

    /// Applies one `tag` child to the feature in progress.
    pub fn add_tag(&mut self, chave: String, valor: String)
        ensures
            final(self)@ == espec_add_tag(old(self)@, chave@, valor@),
    {
        if texto_igual(chave.as_str(), "name") {
            match self {
                FeatureOSM::No(no) => no.informar_nome(valor),
                FeatureOSM::Area(area) => area.informar_nome(valor),
                FeatureOSM::Indefinido => {},
            }
        } else {
            let setar_medicina = eh_gatilho(chave.as_str(), valor.as_str());
            if setar_medicina {
                match self {
                    FeatureOSM::No(no) => no.confirmar_medicina(),
                    FeatureOSM::Area(area) => area.confirmar_medicina(),
                    FeatureOSM::Indefinido => {},
                }
            }
        }
    }
}

} // verus!
