//! Laws of the pipeline, proved once and for all inputs.

use vstd::prelude::*;

use crate::eventos::eh_terminal;
use crate::eventos::EventoEspec;
use crate::modelo::aplicar;
use crate::modelo::executar;
use crate::modelo::fechar;
use crate::modelo::lema_primeiro_em_tabela;
use crate::modelo::no_inicial;
use crate::modelo::passo;
use crate::modelo::pipeline;
use crate::modelo::ponto_de_area;
use crate::modelo::valor_atributo;
use crate::modelo::EstadoEspec;
use crate::tipos::AreaEspec;
use crate::tipos::CoordenadaEspec;
use crate::tipos::eh_gatilho_medicina;
use crate::tipos::espec_add_tag;
use crate::tipos::FeatureEspec;
use crate::tipos::NoEspec;

verus! {

/// What one tag does to an in-progress node.
pub open spec fn aplicar_tag_no(no: NoEspec, chave: Seq<char>, valor: Seq<char>) -> NoEspec {
    if chave == "name"@ {
        NoEspec { nome: Some(valor), ..no }
    } else if eh_gatilho_medicina(chave, valor) {
        NoEspec { medicina: true, ..no }
    } else {
        no
    }
}

/// An in-progress node after a list of tags, first tag first.
pub open spec fn no_apos(no: NoEspec, tags: Seq<(Seq<char>, Seq<char>)>) -> NoEspec
    decreases tags.len(),
{
    if tags.len() == 0 {
        no
    } else {
        no_apos(aplicar_tag_no(no, tags[0].0, tags[0].1), tags.drop_first())
    }
}

/// An in-progress feature after a list of tags, first tag first.
pub open spec fn dobrar_tags(f: FeatureEspec, tags: Seq<(Seq<char>, Seq<char>)>) -> FeatureEspec
    decreases tags.len(),
{
    if tags.len() == 0 {
        f
    } else {
        dobrar_tags(espec_add_tag(f, tags[0].0, tags[0].1), tags.drop_first())
    }
}

/// The event a tag child of an element produces.
pub open spec fn evento_tag(par: (Seq<char>, Seq<char>)) -> EventoEspec {
    EventoEspec::Inicio { nome: "tag"@, atributos: seq![("k"@, par.0), ("v"@, par.1)] }
}

/// The events a list of tag children produces.
pub open spec fn eventos_tags(tags: Seq<(Seq<char>, Seq<char>)>) -> Seq<EventoEspec> {
    tags.map_values(|par: (Seq<char>, Seq<char>)| evento_tag(par))
}

/// The events of one complete `node` element: its start, its tags, its end.
pub open spec fn eventos_no(
    atributos: Seq<(Seq<char>, Seq<char>)>,
    tags: Seq<(Seq<char>, Seq<char>)>,
) -> Seq<EventoEspec> {
    seq![EventoEspec::Inicio { nome: "node"@, atributos }] + eventos_tags(tags) + seq![
        EventoEspec::Fim { nome: "node"@ },
    ]
}

/// Folding a stream splits at any point.
pub proof fn lema_aplicar_concat(e: EstadoEspec, a: Seq<EventoEspec>, b: Seq<EventoEspec>)
    ensures
        aplicar(e, a + b) == aplicar(aplicar(e, a), b),
    decreases a.len(),
{
    if a.len() == 0 {
        assert(a + b =~= b);
    } else {
        assert((a + b)[0] == a[0]);
        assert((a + b).drop_first() =~= a.drop_first() + b);
        lema_aplicar_concat(passo(e, a[0]), a.drop_first(), b);
    }
}

/// Over a stream without a terminal event, the pass cannot fail and folds
/// every event.
pub proof fn lema_executar_sem_terminal(e: EstadoEspec, eventos: Seq<EventoEspec>)
    requires
        forall|k: int| 0 <= k < eventos.len() ==> !eh_terminal(#[trigger] eventos[k]),
    ensures
        executar(e, eventos) == Ok::<EstadoEspec, Seq<char>>(aplicar(e, eventos)),
    decreases eventos.len(),
{
    if eventos.len() > 0 {
        assert(forall|k: int|
            0 <= k < eventos.drop_first().len() ==> !eh_terminal(
                #[trigger] eventos.drop_first()[k],
            ));
        lema_executar_sem_terminal(passo(e, eventos[0]), eventos.drop_first());
    }
}

/// Tag events touch only the in-progress feature.
proof fn lema_eventos_tags(e: EstadoEspec, tags: Seq<(Seq<char>, Seq<char>)>)
    ensures
        aplicar(e, eventos_tags(tags)) == (EstadoEspec {
            atual: dobrar_tags(e.atual, tags),
            ..e
        }),
    decreases tags.len(),
{
    reveal_strlit("node");
    reveal_strlit("way");
    reveal_strlit("tag");
    reveal_strlit("nd");
    reveal_strlit("k");
    reveal_strlit("v");
    assert("tag"@ != "node"@) by {
        assert("tag"@.len() == 3);
        assert("node"@.len() == 4);
    }
    assert("tag"@ != "way"@) by {
        assert("tag"@[0] == 't');
        assert("way"@[0] == 'w');
    }
    assert("tag"@ != "nd"@) by {
        assert("tag"@.len() == 3);
        assert("nd"@.len() == 2);
    }
    assert("v"@ != "k"@) by {
        assert("v"@[0] == 'v');
        assert("k"@[0] == 'k');
    }
    if tags.len() == 0 {
        assert(eventos_tags(tags) =~= Seq::<EventoEspec>::empty());
    } else {
        let evs = eventos_tags(tags);
        assert(evs[0] == evento_tag(tags[0]));
        assert(evs.drop_first() =~= eventos_tags(tags.drop_first()));
        let atributos = seq![("k"@, tags[0].0), ("v"@, tags[0].1)];
        assert(valor_atributo(atributos, "k"@, Seq::<char>::empty()) == tags[0].0) by {
            assert(atributos.last() == ("v"@, tags[0].1));
            assert(atributos.drop_last() =~= seq![("k"@, tags[0].0)]);
            assert(valor_atributo(seq![("k"@, tags[0].0)], "k"@, Seq::<char>::empty())
                == tags[0].0);
        }
        assert(valor_atributo(atributos, "v"@, Seq::<char>::empty()) == tags[0].1) by {
            assert(atributos.last() == ("v"@, tags[0].1));
        }
        let e2 = passo(e, evs[0]);
        assert(e2 == (EstadoEspec { atual: espec_add_tag(e.atual, tags[0].0, tags[0].1), ..e }));
        lema_eventos_tags(e2, tags.drop_first());
        assert(aplicar(e, evs) == aplicar(e2, evs.drop_first()));
    }
}

/// Over an in-progress node, folding tags folds the node.
proof fn lema_dobrar_no(no: NoEspec, tags: Seq<(Seq<char>, Seq<char>)>)
    ensures
        dobrar_tags(FeatureEspec::No(no), tags) == FeatureEspec::No(no_apos(no, tags)),
    decreases tags.len(),
{
    if tags.len() > 0 {
        lema_dobrar_no(aplicar_tag_no(no, tags[0].0, tags[0].1), tags.drop_first());
    }
}

/// The tags set the medical flag exactly when one of them is a trigger, and
/// never touch the identifier or the coordinate.
pub proof fn lema_no_apos(no: NoEspec, tags: Seq<(Seq<char>, Seq<char>)>)
    ensures
        no_apos(no, tags).id == no.id,
        no_apos(no, tags).coordenada == no.coordenada,
        no_apos(no, tags).medicina == (no.medicina || exists|i: int|
            0 <= i < tags.len() && eh_gatilho_medicina(#[trigger] tags[i].0, tags[i].1)),
    decreases tags.len(),
{
    reveal_strlit("name");
    reveal_strlit("healthcare");
    reveal_strlit("amenity");
    if tags.len() > 0 {
        let resto = tags.drop_first();
        let no2 = aplicar_tag_no(no, tags[0].0, tags[0].1);
        lema_no_apos(no2, resto);
        assert("name"@ != "healthcare"@) by {
            assert("name"@.len() == 4);
            assert("healthcare"@.len() == 10);
        }
        assert("name"@ != "amenity"@) by {
            assert("name"@.len() == 4);
            assert("amenity"@.len() == 7);
        }
        assert(no2.medicina == (no.medicina || eh_gatilho_medicina(tags[0].0, tags[0].1))) by {
            if tags[0].0 == "name"@ {
                assert(!eh_gatilho_medicina(tags[0].0, tags[0].1));
            }
        }
        if exists|i: int| 0 <= i < resto.len() && eh_gatilho_medicina(#[trigger] resto[i].0, resto[i].1) {
            let i = choose|i: int|
                0 <= i < resto.len() && eh_gatilho_medicina(#[trigger] resto[i].0, resto[i].1);
            assert(resto[i] == tags[i + 1]);
            assert(eh_gatilho_medicina(tags[i + 1].0, tags[i + 1].1));
        }
        if exists|i: int| 0 <= i < tags.len() && eh_gatilho_medicina(#[trigger] tags[i].0, tags[i].1) {
            let i = choose|i: int|
                0 <= i < tags.len() && eh_gatilho_medicina(#[trigger] tags[i].0, tags[i].1);
            if i > 0 {
                assert(resto[i - 1] == tags[i]);
                assert(eh_gatilho_medicina(resto[i - 1].0, resto[i - 1].1));
            }
        }
    }
}

/// CLASSIFICATION. One complete `node` element — start, tags, end — lands in
/// the medical results exactly when a `healthcare` tag or a qualifying
/// `amenity` tag is among its tags; any other node leaves the results alone
/// and only writes its coordinate into the side table. Either way the
/// pending areas are untouched and the in-progress slot ends empty.
pub proof fn lei_classificacao_no(
    e: EstadoEspec,
    atributos: Seq<(Seq<char>, Seq<char>)>,
    tags: Seq<(Seq<char>, Seq<char>)>,
)
    ensures
        ({
            let fim = aplicar(e, eventos_no(atributos, tags));
            let no = no_apos(no_inicial(atributos), tags);
            let medicina = exists|i: int|
                0 <= i < tags.len() && eh_gatilho_medicina(#[trigger] tags[i].0, tags[i].1);
            &&& no.medicina == medicina
            &&& no.id == no_inicial(atributos).id
            &&& no.coordenada == no_inicial(atributos).coordenada
            &&& fim.atual is Indefinido
            &&& fim.areas == e.areas
            &&& (medicina ==> fim.medicos == e.medicos.push(no) && fim.tabela == e.tabela)
            &&& (!medicina ==> fim.medicos == e.medicos && fim.tabela == e.tabela.insert(
                no.id,
                no.coordenada,
            ))
        }),
{
    reveal_strlit("node");
    let inicio = seq![EventoEspec::Inicio { nome: "node"@, atributos }];
    let fim_evento = seq![EventoEspec::Fim { nome: "node"@ }];
    let evs = eventos_no(atributos, tags);
    lema_aplicar_concat(e, inicio + eventos_tags(tags), fim_evento);
    lema_aplicar_concat(e, inicio, eventos_tags(tags));
    assert(evs == inicio + eventos_tags(tags) + fim_evento);
    let e1 = aplicar(e, inicio);
    assert(inicio.drop_first() =~= Seq::<EventoEspec>::empty());
    assert(aplicar(passo(e, inicio[0]), Seq::<EventoEspec>::empty()) == passo(e, inicio[0]));
    assert(e1 == passo(e, inicio[0]));
    assert(e1 == (EstadoEspec { atual: FeatureEspec::No(no_inicial(atributos)), ..e }));
    let e2 = aplicar(e1, eventos_tags(tags));
    lema_eventos_tags(e1, tags);
    lema_dobrar_no(no_inicial(atributos), tags);
    let no = no_apos(no_inicial(atributos), tags);
    assert(e2 == (EstadoEspec { atual: FeatureEspec::No(no), ..e }));
    let e3 = aplicar(e2, fim_evento);
    assert(fim_evento.drop_first() =~= Seq::<EventoEspec>::empty());
    assert(aplicar(passo(e2, fim_evento[0]), Seq::<EventoEspec>::empty()) == passo(
        e2,
        fim_evento[0],
    ));
    assert(e3 == passo(e2, fim_evento[0]));
    assert(e3 == fechar(e2));
    lema_no_apos(no_inicial(atributos), tags);
    assert(no_inicial(atributos).medicina == false);
}

/// RESOLUTION. An area some of whose references the side table knows
/// resolves to exactly one point, carrying the area's id and name and the
/// coordinate of the first known reference — the values or absence of the
/// references before it do not matter; an area none of whose references the
/// table knows resolves to no point at all.
pub proof fn lei_resolucao_area(area: AreaEspec, tabela: Map<i64, CoordenadaEspec>, k: int)
    requires
        0 <= k <= area.refs.len(),
        forall|j: int| 0 <= j < k ==> !tabela.contains_key(#[trigger] area.refs[j]),
    ensures
        k < area.refs.len() && tabela.contains_key(area.refs[k]) ==> ponto_de_area(area, tabela)
            == Some(
            (NoEspec {
                coordenada: tabela[area.refs[k]],
                id: area.id,
                nome: area.nome,
                medicina: true,
            }),
        ),
        k == area.refs.len() ==> ponto_de_area(area, tabela) is None,
{
    lema_primeiro_em_tabela(area.refs, tabela, k);
}

/// DETERMINISM. The pipeline's outcome is a function of the event stream
/// alone, and the stream a reader hands back is a function of the document's
/// bytes alone; two passes over the same bytes therefore yield the same
/// ordered results.
pub proof fn lei_pipeline_deterministico(a: Seq<EventoEspec>, b: Seq<EventoEspec>)
    requires
        a == b,
    ensures
        pipeline(a) == pipeline(b),
{
}

} // verus!
