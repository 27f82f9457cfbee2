//! The mathematical model of the pipeline: what one pass over the event
//! stream builds, and what resolving the buffered areas yields.

use vstd::prelude::*;

use crate::eventos::EventoEspec;
use crate::numero::aceita_f64;
use crate::numero::espec_i64;
use crate::tipos::AreaEspec;
use crate::tipos::AreaOSM;
use crate::tipos::Coordenada;
use crate::tipos::CoordenadaEspec;
use crate::tipos::FeatureEspec;
use crate::tipos::NoEspec;
use crate::tipos::NoOSM;
use crate::tipos::espec_add_tag;

verus! {

/// The views of a list of point features.
pub open spec fn vista_nos(s: Seq<NoOSM>) -> Seq<NoEspec> {
    s.map_values(|no: NoOSM| no@)
}

/// The views of a list of area candidates.
pub open spec fn vista_areas(s: Seq<AreaOSM>) -> Seq<AreaEspec> {
    s.map_values(|area: AreaOSM| area@)
}

/// The views of a coordinate side table.
pub open spec fn vista_tabela(m: Map<i64, Coordenada>) -> Map<i64, CoordenadaEspec> {
    m.map_values(|c: Coordenada| c@)
}

/// The raw value of the last attribute with the given name, or the fallback
/// when there is none.
pub open spec fn valor_atributo(
    atributos: Seq<(Seq<char>, Seq<char>)>,
    chave: Seq<char>,
    reserva: Seq<char>,
) -> Seq<char>
    decreases atributos.len(),
{
    if atributos.len() == 0 {
        reserva
    } else if atributos.last().0 == chave {
        atributos.last().1
    } else {
        valor_atributo(atributos.drop_last(), chave, reserva)
    }
}

/// The integer read from the attributes with the given name: each occurrence
/// whose value parses overwrites the previous one, and a value that does not
/// parse leaves the previous one standing; zero when none parsed.
pub open spec fn campo_i64(atributos: Seq<(Seq<char>, Seq<char>)>, chave: Seq<char>) -> i64
    decreases atributos.len(),
{
    if atributos.len() == 0 {
        0
    } else {
        let anterior = campo_i64(atributos.drop_last(), chave);
        if atributos.last().0 == chave {
            match espec_i64(atributos.last().1) {
                Some(v) => v,
                None => anterior,
            }
        } else {
            anterior
        }
    }
}

/// The coordinate text read from the attributes with the given name: each
/// occurrence whose value the floating-point grammar accepts overwrites the
/// previous one; `"0"` when none was accepted.
pub open spec fn campo_coordenada(atributos: Seq<(Seq<char>, Seq<char>)>, chave: Seq<char>) -> Seq<
    char,
>
    decreases atributos.len(),
{
    if atributos.len() == 0 {
        seq!['0']
    } else {
        let anterior = campo_coordenada(atributos.drop_last(), chave);
        if atributos.last().0 == chave && aceita_f64(atributos.last().1) {
            atributos.last().1
        } else {
            anterior
        }
    }
}

/// The value of the first attribute with the given name, if any.
pub open spec fn primeiro_atributo(
    atributos: Seq<(Seq<char>, Seq<char>)>,
    chave: Seq<char>,
) -> Option<Seq<char>>
    decreases atributos.len(),
{
    if atributos.len() == 0 {
        None
    } else if atributos[0].0 == chave {
        Some(atributos[0].1)
    } else {
        primeiro_atributo(atributos.drop_first(), chave)
    }
}

/// The identifier of a `way` element: the first `id` attribute, read as an
/// integer, zero when absent or unparsable.
pub open spec fn espec_id_area(atributos: Seq<(Seq<char>, Seq<char>)>) -> i64 {
    match primeiro_atributo(atributos, "id"@) {
        Some(v) => match espec_i64(v) {
            Some(n) => n,
            None => 0,
        },
        None => 0,
    }
}

/// The node ids carried by the `ref` attributes, in order, keeping only the
/// values that parse.
pub open spec fn refs_de(atributos: Seq<(Seq<char>, Seq<char>)>) -> Seq<i64>
    decreases atributos.len(),
{
    if atributos.len() == 0 {
        Seq::empty()
    } else {
        refs_de(atributos.drop_last()) + (if atributos.last().0 == "ref"@ {
            match espec_i64(atributos.last().1) {
                Some(v) => seq![v],
                None => Seq::empty(),
            }
        } else {
            Seq::empty()
        })
    }
}

/// The fresh in-progress node that a `node` start event produces.
pub open spec fn no_inicial(atributos: Seq<(Seq<char>, Seq<char>)>) -> NoEspec {
    NoEspec {
        coordenada: CoordenadaEspec {
            x: campo_coordenada(atributos, "lon"@),
            y: campo_coordenada(atributos, "lat"@),
        },
        id: campo_i64(atributos, "id"@),
        nome: None,
        medicina: false,
    }
}

/// The fresh in-progress area that a `way` start event produces.
pub open spec fn area_inicial(atributos: Seq<(Seq<char>, Seq<char>)>) -> AreaEspec {
    AreaEspec { refs: Seq::empty(), id: espec_id_area(atributos), nome: None, medicina: false }
}

/// What an `nd` child does: while an area is in progress its reference list
/// grows by the parsed `ref` attributes; any other feature is untouched.
pub open spec fn com_refs(f: FeatureEspec, atributos: Seq<(Seq<char>, Seq<char>)>) -> FeatureEspec {
    match f {
        FeatureEspec::Area(area) => FeatureEspec::Area(
            AreaEspec { refs: area.refs + refs_de(atributos), ..area },
        ),
        _ => f,
    }
}

/// The whole state of the ingestion pass.
pub struct EstadoEspec {
    /// The element currently open.
    pub atual: FeatureEspec,
    /// The medical nodes already emitted, in document order.
    pub medicos: Seq<NoEspec>,
    /// The medical areas buffered for resolution, in document order.
    pub areas: Seq<AreaEspec>,
    /// The coordinate side table of the plain nodes seen so far.
    pub tabela: Map<i64, CoordenadaEspec>,
}

/// The state before any event.
pub open spec fn estado_inicial() -> EstadoEspec {
    EstadoEspec {
        atual: FeatureEspec::Indefinido,
        medicos: Seq::empty(),
        areas: Seq::empty(),
        tabela: Map::empty(),
    }
}

/// What closing a `node` or `way` element does: a medical feature goes to the
/// results or the pending areas, a plain node feeds the side table (last
/// write wins), a plain area is dropped, and the slot is reset.
pub open spec fn fechar(e: EstadoEspec) -> EstadoEspec {
    match e.atual {
        FeatureEspec::No(no) => if no.medicina {
            EstadoEspec { atual: FeatureEspec::Indefinido, medicos: e.medicos.push(no), ..e }
        } else {
            EstadoEspec {
                atual: FeatureEspec::Indefinido,
                tabela: e.tabela.insert(no.id, no.coordenada),
                ..e
            }
        },
        FeatureEspec::Area(area) => if area.medicina {
            EstadoEspec { atual: FeatureEspec::Indefinido, areas: e.areas.push(area), ..e }
        } else {
            EstadoEspec { atual: FeatureEspec::Indefinido, ..e }
        },
        FeatureEspec::Indefinido => e,
    }
}

/// What one event does to the state.
pub open spec fn passo(e: EstadoEspec, ev: EventoEspec) -> EstadoEspec {
    match ev {
        EventoEspec::Inicio { nome, atributos } => {
            if nome == "node"@ {
                EstadoEspec { atual: FeatureEspec::No(no_inicial(atributos)), ..e }
            } else if nome == "way"@ {
                EstadoEspec { atual: FeatureEspec::Area(area_inicial(atributos)), ..e }
            } else if nome == "tag"@ {
                EstadoEspec {
                    atual: espec_add_tag(
                        e.atual,
                        valor_atributo(atributos, "k"@, Seq::empty()),
                        valor_atributo(atributos, "v"@, Seq::empty()),
                    ),
                    ..e
                }
            } else if nome == "nd"@ {
                EstadoEspec { atual: com_refs(e.atual, atributos), ..e }
            } else {
                e
            }
        },
        EventoEspec::Fim { nome } => {
            if nome == "node"@ || nome == "way"@ {
                fechar(e)
            } else {
                e
            }
        },
        _ => e,
    }
}

/// The state after folding every event, in order, stopping nowhere.
pub open spec fn aplicar(e: EstadoEspec, eventos: Seq<EventoEspec>) -> EstadoEspec
    decreases eventos.len(),
{
    if eventos.len() == 0 {
        e
    } else {
        aplicar(passo(e, eventos[0]), eventos.drop_first())
    }
}

/// What a pass over the events yields: the state after folding them in
/// order, stopping at the end-of-document mark, or the failure message when
/// the parser failed first.
pub open spec fn executar(e: EstadoEspec, eventos: Seq<EventoEspec>) -> Result<
    EstadoEspec,
    Seq<char>,
>
    decreases eventos.len(),
{
    if eventos.len() == 0 {
        Ok(e)
    } else {
        match eventos[0] {
            EventoEspec::Falha { mensagem } => Err(mensagem),
            EventoEspec::FimDocumento => Ok(e),
            _ => executar(passo(e, eventos[0]), eventos.drop_first()),
        }
    }
}

/// The first referenced id that the side table knows, scanning in document
/// reference order.
pub open spec fn primeiro_em_tabela(refs: Seq<i64>, tabela: Map<i64, CoordenadaEspec>) -> Option<
    i64,
>
    decreases refs.len(),
{
    if refs.len() == 0 {
        None
    } else if tabela.contains_key(refs[0]) {
        Some(refs[0])
    } else {
        primeiro_em_tabela(refs.drop_first(), tabela)
    }
}

/// The scan finds nothing over ids the table does not know, and stops at the
/// first id it does know.
pub proof fn lema_primeiro_em_tabela(refs: Seq<i64>, tabela: Map<i64, CoordenadaEspec>, k: int)
    requires
        0 <= k <= refs.len(),
        forall|j: int| 0 <= j < k ==> !tabela.contains_key(#[trigger] refs[j]),
    ensures
        k == refs.len() ==> primeiro_em_tabela(refs, tabela) is None,
        k < refs.len() && tabela.contains_key(refs[k]) ==> primeiro_em_tabela(refs, tabela)
            == Some(refs[k]),
    decreases refs.len(),
{
    if refs.len() > 0 && !tabela.contains_key(refs[0]) && k > 0 {
        assert(forall|j: int|
            0 <= j < k - 1 ==> !tabela.contains_key(#[trigger] refs.drop_first()[j]));
        lema_primeiro_em_tabela(refs.drop_first(), tabela, k - 1);
    }
}

/// What the scan hands back, the table does know.
pub proof fn lema_primeiro_contem(refs: Seq<i64>, tabela: Map<i64, CoordenadaEspec>)
    ensures
        match primeiro_em_tabela(refs, tabela) {
            Some(id) => tabela.contains_key(id),
            None => true,
        },
    decreases refs.len(),
{
    if refs.len() > 0 && !tabela.contains_key(refs[0]) {
        lema_primeiro_contem(refs.drop_first(), tabela);
    }
}

/// The point an area resolves to: its own id and name with the first known
/// referenced coordinate, or nothing when the table knows none of its
/// references.
pub open spec fn ponto_de_area(area: AreaEspec, tabela: Map<i64, CoordenadaEspec>) -> Option<
    NoEspec,
> {
    match primeiro_em_tabela(area.refs, tabela) {
        Some(id) => Some(
            NoEspec { coordenada: tabela[id], id: area.id, nome: area.nome, medicina: true },
        ),
        None => None,
    }
}

/// The points the buffered areas resolve to, in buffer order; an area whose
/// references are all unknown contributes nothing.
pub open spec fn resolver_espec(areas: Seq<AreaEspec>, tabela: Map<i64, CoordenadaEspec>) -> Seq<
    NoEspec,
>
    decreases areas.len(),
{
    if areas.len() == 0 {
        Seq::empty()
    } else {
        resolver_espec(areas.drop_last(), tabela) + (match ponto_de_area(areas.last(), tabela) {
            Some(no) => seq![no],
            None => Seq::empty(),
        })
    }
}

/// The whole pipeline over an event stream: the emitted medical nodes
/// followed by the resolved areas, or the first failure.
pub open spec fn pipeline(eventos: Seq<EventoEspec>) -> Result<Seq<NoEspec>, Seq<char>> {
    match executar(estado_inicial(), eventos) {
        Ok(e) => Ok(e.medicos + resolver_espec(e.areas, e.tabela)),
        Err(m) => Err(m),
    }
}

} // verus!
