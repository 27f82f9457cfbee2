//! The ingestion pass and the area resolution, as executable code proved
//! against the model in [`crate::modelo`].

use std::collections::HashMap;

use vstd::prelude::*;

use crate::eventos::conteudo;
use crate::eventos::eh_terminal;
use crate::eventos::eventos_de;
use crate::eventos::novo_leitor;
use crate::eventos::proximo;
use crate::eventos::vista_atributos;
use crate::eventos::EventoXml;
use crate::modelo::campo_coordenada;
use crate::modelo::campo_i64;
use crate::modelo::com_refs;
use crate::modelo::espec_id_area;
use crate::modelo::estado_inicial;
use crate::modelo::executar;
use crate::modelo::fechar;
use crate::modelo::lema_primeiro_contem;
use crate::modelo::lema_primeiro_em_tabela;
use crate::modelo::passo;
use crate::modelo::pipeline;
use crate::modelo::ponto_de_area;
use crate::modelo::primeiro_atributo;
use crate::modelo::primeiro_em_tabela;
use crate::modelo::refs_de;
use crate::modelo::resolver_espec;
use crate::modelo::valor_atributo;
use crate::modelo::vista_areas;
use crate::modelo::vista_nos;
use crate::modelo::vista_tabela;
use crate::modelo::EstadoEspec;
use crate::numero::analisar_i64;
use crate::numero::eh_numero_f64;
use crate::texto::texto_igual;
use crate::tipos::AreaOSM;
use crate::tipos::Coordenada;
use crate::tipos::FeatureOSM;
use crate::tipos::NoOSM;

verus! {

broadcast use vstd::std_specs::hash::group_hash_axioms;

/// The integer carried by the attributes named `chave`: later parsable
/// occurrences overwrite earlier ones, zero when none parses.
pub fn extrair_i64(atributos: &Vec<(String, String)>, chave: &str) -> (r: i64)
    ensures
        r == campo_i64(vista_atributos(atributos@), chave@),
{
    let ghost vista = vista_atributos(atributos@);
    let mut atual: i64 = 0;
    let n = atributos.len();
    let mut i: usize = 0;
    while i < n
        invariant
            i <= n,
            n == atributos@.len(),
            vista == vista_atributos(atributos@),
            atual == campo_i64(vista.take(i as int), chave@),
        decreases n - i,
    {
        proof {
            assert(vista.take(i as int + 1).drop_last() =~= vista.take(i as int));
            assert(vista.take(i as int + 1).last() == vista[i as int]);
        }
        let par = &atributos[i];
        if texto_igual(par.0.as_str(), chave) {
            match analisar_i64(par.1.as_str()) {
                Some(v) => {
                    atual = v;
                },
                None => {},
            }
        }
        i += 1;
    }
    proof {
        assert(vista.take(n as int) =~= vista);
    }
    atual
}

/// The coordinate text carried by the attributes named `chave`: later
/// occurrences that the floating-point grammar accepts overwrite earlier
/// ones, `"0"` when none was accepted.
pub fn extrair_coordenada(atributos: &Vec<(String, String)>, chave: &str) -> (r: String)
    ensures
        r@ == campo_coordenada(vista_atributos(atributos@), chave@),
{
    let ghost vista = vista_atributos(atributos@);
    let zero = "0";
    proof {
        reveal_strlit("0");
        assert(zero@ =~= seq!['0']);
    }
    let mut atual: String = zero.to_owned();
    let n = atributos.len();
    let mut i: usize = 0;
    while i < n
        invariant
            i <= n,
            n == atributos@.len(),
            vista == vista_atributos(atributos@),
            atual@ == campo_coordenada(vista.take(i as int), chave@),
        decreases n - i,
    {
        proof {
            assert(vista.take(i as int + 1).drop_last() =~= vista.take(i as int));
            assert(vista.take(i as int + 1).last() == vista[i as int]);
        }
        let par = &atributos[i];
        if texto_igual(par.0.as_str(), chave) && eh_numero_f64(par.1.as_str()) {
            atual = par.1.clone();
        }
        i += 1;
    }
    proof {
        assert(vista.take(n as int) =~= vista);
    }
    atual
}

/// The raw value of the last attribute named `chave`, or the empty string.
pub fn extrair_texto(atributos: &Vec<(String, String)>, chave: &str) -> (r: String)
    ensures
        r@ == valor_atributo(vista_atributos(atributos@), chave@, Seq::<char>::empty()),
{
    let ghost vista = vista_atributos(atributos@);
    let mut atual: String = String::new();
    let n = atributos.len();
    let mut i: usize = 0;
    while i < n
        invariant
            i <= n,
            n == atributos@.len(),
            vista == vista_atributos(atributos@),
            atual@ == valor_atributo(vista.take(i as int), chave@, Seq::<char>::empty()),
        decreases n - i,
    {
        proof {
            assert(vista.take(i as int + 1).drop_last() =~= vista.take(i as int));
            assert(vista.take(i as int + 1).last() == vista[i as int]);
        }
        let par = &atributos[i];
        if texto_igual(par.0.as_str(), chave) {
            atual = par.1.clone();
        }
        i += 1;
    }
    proof {
        assert(vista.take(n as int) =~= vista);
    }
    atual
}

/// The identifier of a `way`: its first `id` attribute read as an integer,
/// zero when absent or unparsable.
pub fn extrair_id_area(atributos: &Vec<(String, String)>) -> (r: i64)
    ensures
        r == espec_id_area(vista_atributos(atributos@)),
{
    let ghost vista = vista_atributos(atributos@);
    proof {
        assert(vista.skip(0) =~= vista);
    }
    let n = atributos.len();
    let mut i: usize = 0;
    while i < n
        invariant
            i <= n,
            n == atributos@.len(),
            vista == vista_atributos(atributos@),
            primeiro_atributo(vista, "id"@) == primeiro_atributo(
                vista.skip(i as int),
                "id"@,
            ),
        decreases n - i,
    {
        proof {
            assert(vista.skip(i as int)[0] == vista[i as int]);
            assert(vista.skip(i as int).drop_first() =~= vista.skip(i as int + 1));
        }
        let par = &atributos[i];
        if texto_igual(par.0.as_str(), "id") {
            match analisar_i64(par.1.as_str()) {
                Some(v) => {
                    return v;
                },
                None => {
                    return 0;
                },
            }
        }
        i += 1;
    }
    proof {
        assert(vista.skip(n as int) =~= Seq::<(Seq<char>, Seq<char>)>::empty());
    }
    0
}

/// The parsed values of the `ref` attributes, in order.
pub fn extrair_refs(atributos: &Vec<(String, String)>) -> (r: Vec<i64>)
    ensures
        r@ == refs_de(vista_atributos(atributos@)),
{
    let ghost vista = vista_atributos(atributos@);
    let mut refs: Vec<i64> = Vec::new();
    let n = atributos.len();
    let mut i: usize = 0;
    while i < n
        invariant
            i <= n,
            n == atributos@.len(),
            vista == vista_atributos(atributos@),
            refs@ == refs_de(vista.take(i as int)),
        decreases n - i,
    {
        proof {
            assert(vista.take(i as int + 1).drop_last() =~= vista.take(i as int));
            assert(vista.take(i as int + 1).last() == vista[i as int]);
        }
        let par = &atributos[i];
        if texto_igual(par.0.as_str(), "ref") {
            match analisar_i64(par.1.as_str()) {
                Some(v) => {
                    refs.push(v);
                },
                None => {},
            }
        }
        i += 1;
    }
    proof {
        assert(vista.take(n as int) =~= vista);
    }
    refs
}

impl AreaOSM {
    /// Appends a list of referenced node ids, in order.
    pub fn adicionar_refs(&mut self, refs: &Vec<i64>)
        ensures
            final(self).lista_nos@ == old(self).lista_nos@ + refs@,
            final(self).id == old(self).id,
            final(self).name == old(self).name,
            final(self).e_medicina == old(self).e_medicina,
    {
        let n = refs.len();
        let mut i: usize = 0;
        while i < n
            invariant
                i <= n,
                n == refs@.len(),
                self.lista_nos@ == old(self).lista_nos@ + refs@.take(i as int),
                self.id == old(self).id,
                self.name == old(self).name,
                self.e_medicina == old(self).e_medicina,
            decreases n - i,
        {
            self.adicionar_no_coordenada(refs[i]);
            proof {
                assert(old(self).lista_nos@ + refs@.take(i as int + 1) =~= (old(
                    self,
                ).lista_nos@ + refs@.take(i as int)).push(refs@[i as int]));
            }
            i += 1;
        }
        proof {
            assert(refs@.take(n as int) =~= refs@);
        }
    }
}

/// The whole state of one ingestion pass.
pub struct EstadoIngestao {
    /// The element currently open.
    pub atual: FeatureOSM,
    /// The medical nodes emitted so far, in document order.
    pub nos_medicina: Vec<NoOSM>,
    /// The medical areas buffered for resolution, in document order.
    pub areas_pendentes: Vec<AreaOSM>,
    /// The coordinate side table of the plain nodes seen so far.
    pub nos_coordenadas: HashMap<i64, Coordenada>,
}

impl View for EstadoIngestao {
    type V = EstadoEspec;

    open spec fn view(&self) -> EstadoEspec {
        EstadoEspec {
            atual: self.atual@,
            medicos: vista_nos(self.nos_medicina@),
            areas: vista_areas(self.areas_pendentes@),
            tabela: vista_tabela(self.nos_coordenadas@),
        }
    }
}

impl EstadoIngestao {
    /// The state before any event.
    pub fn novo() -> (estado: Self)
        ensures
            estado@ == estado_inicial(),
    {
        let estado = EstadoIngestao {
            atual: FeatureOSM::Indefinido,
            nos_medicina: Vec::new(),
            areas_pendentes: Vec::new(),
            nos_coordenadas: HashMap::new(),
        };
        proof {
            assert(vista_nos(estado.nos_medicina@) =~= Seq::<crate::tipos::NoEspec>::empty());
            assert(vista_areas(estado.areas_pendentes@) =~= Seq::<
                crate::tipos::AreaEspec,
            >::empty());
            assert(vista_tabela(estado.nos_coordenadas@) =~= Map::<
                i64,
                crate::tipos::CoordenadaEspec,
            >::empty());
        }
        estado
    }

    /// Routes the finished feature: a medical node to the results, a medical
    /// area to the pending buffer, a plain node to the side table, and resets
    /// the slot.
    pub fn fechar_elemento(&mut self)
        ensures
            final(self)@ == fechar(old(self)@),
    {
        let mut atual = FeatureOSM::Indefinido;
        core::mem::swap(&mut atual, &mut self.atual);
        match atual {
            FeatureOSM::No(no) => {
                if no.e_medicina() {
                    self.nos_medicina.push(no);
                    proof {
                        assert(vista_nos(self.nos_medicina@) =~= vista_nos(
                            old(self).nos_medicina@,
                        ).push(no@));
                    }
                } else {
                    let id = no.id();
                    let coordenada = no.coordenada();
                    self.nos_coordenadas.insert(id, coordenada);
                    proof {
                        assert(vista_tabela(self.nos_coordenadas@) =~= vista_tabela(
                            old(self).nos_coordenadas@,
                        ).insert(no@.id, no@.coordenada));
                    }
                }
            },
            FeatureOSM::Area(area) => {
                if area.e_medicina() {
                    self.areas_pendentes.push(area);
                    proof {
                        assert(vista_areas(self.areas_pendentes@) =~= vista_areas(
                            old(self).areas_pendentes@,
                        ).push(area@));
                    }
                }
            },
            FeatureOSM::Indefinido => {},
        }
    }

    /// Applies one event of the token stream to the state.
    pub fn processar_evento(&mut self, evento: EventoXml)
        ensures
            final(self)@ == passo(old(self)@, evento@),
    {
        match evento {
            EventoXml::Inicio { nome, atributos } => {
                if texto_igual(nome.as_str(), "node") {
                    let id = extrair_i64(&atributos, "id");
                    let latitude = extrair_coordenada(&atributos, "lat");
                    let longitude = extrair_coordenada(&atributos, "lon");
                    self.atual = FeatureOSM::No(NoOSM::novo(id, None, latitude, longitude, None));
                } else if texto_igual(nome.as_str(), "way") {
                    let id = extrair_id_area(&atributos);
                    self.atual = FeatureOSM::Area(AreaOSM::novo(id, None, None));
                } else if texto_igual(nome.as_str(), "tag") {
                    let chave = extrair_texto(&atributos, "k");
                    let valor = extrair_texto(&atributos, "v");
                    self.atual.add_tag(chave, valor);
                } else if texto_igual(nome.as_str(), "nd") {
                    let refs = extrair_refs(&atributos);
                    match &mut self.atual {
                        FeatureOSM::Area(area) => {
                            area.adicionar_refs(&refs);
                        },
                        _ => {},
                    }
                    proof {
                        assert(self@.atual == com_refs(old(self)@.atual, vista_atributos(atributos@)));
                    }
                }
            },
            EventoXml::Fim { nome } => {
                if texto_igual(nome.as_str(), "node") || texto_igual(nome.as_str(), "way") {
                    self.fechar_elemento();
                }
            },
            _ => {},
        }
    }
}

/// The first referenced id that the side table knows, in reference order.
pub fn primeiro_resolvivel(refs: &Vec<i64>, tabela: &HashMap<i64, Coordenada>) -> (r: Option<i64>)
    ensures
        r == primeiro_em_tabela(refs@, vista_tabela(tabela@)),
{
    let n = refs.len();
    let mut j: usize = 0;
    while j < n
        invariant
            j <= n,
            n == refs@.len(),
            forall|k: int| 0 <= k < j ==> !vista_tabela(tabela@).contains_key(#[trigger] refs@[k]),
        decreases n - j,
    {
        let id = refs[j];
        if tabela.contains_key(&id) {
            proof {
                lema_primeiro_em_tabela(refs@, vista_tabela(tabela@), j as int);
            }
            return Some(id);
        }
        j += 1;
    }
    proof {
        lema_primeiro_em_tabela(refs@, vista_tabela(tabela@), n as int);
    }
    None
}

/// Resolves the buffered areas in buffer order, appending one point per area
/// whose reference list the side table can serve; an area with no known
/// reference appends nothing.
pub fn resolver_areas(
    areas: Vec<AreaOSM>,
    tabela: &HashMap<i64, Coordenada>,
    saida: &mut Vec<NoOSM>,
)
    ensures
        vista_nos(final(saida)@) == vista_nos(old(saida)@) + resolver_espec(
            vista_areas(areas@),
            vista_tabela(tabela@),
        ),
{
    let ghost vista = vista_areas(areas@);
    let ghost tabela_espec = vista_tabela(tabela@);
    proof {
        assert(vista.take(0) =~= Seq::<crate::tipos::AreaEspec>::empty());
        assert(vista_nos(saida@) =~= vista_nos(saida@) + resolver_espec(
            vista.take(0),
            tabela_espec,
        ));
    }
    let n = areas.len();
    let mut i: usize = 0;
    while i < n
        invariant
            i <= n,
            n == areas@.len(),
            vista == vista_areas(areas@),
            tabela_espec == vista_tabela(tabela@),
            vista_nos(saida@) == vista_nos(old(saida)@) + resolver_espec(
                vista.take(i as int),
                tabela_espec,
            ),
        decreases n - i,
    {
        proof {
            assert(vista.take(i as int + 1).drop_last() =~= vista.take(i as int));
            assert(vista.take(i as int + 1).last() == vista[i as int]);
        }
        let area = &areas[i];
        let achado = primeiro_resolvivel(&area.lista_nos, tabela);
        proof {
            lema_primeiro_contem(area.lista_nos@, tabela_espec);
        }
        match achado {
            Some(id) => {
                proof {
                    assert(tabela_espec.contains_key(id));
                    assert(tabela@.contains_key(id));
                    assert(tabela_espec[id] == tabela@[id]@);
                }
                match tabela.get(&id) {
                    Some(coordenada) => {
                        let nome = match &area.name {
                            Some(s) => Some(s.clone()),
                            None => None,
                        };
                        let no = NoOSM::novo(
                            area.id,
                            nome,
                            coordenada.y.clone(),
                            coordenada.x.clone(),
                            Some(true),
                        );
                        proof {
                            assert(*coordenada == tabela@[id]);
                            assert(no@.coordenada == tabela_espec[id]);
                            assert(vista[i as int] == areas@[i as int]@);
                            assert(no@.nome == vista[i as int].nome);
                            assert(ponto_de_area(vista[i as int], tabela_espec) == Some(no@));
                            assert(resolver_espec(vista.take(i as int + 1), tabela_espec)
                                == resolver_espec(vista.take(i as int), tabela_espec) + seq![no@]);
                        }
                        let ghost antes = saida@;
                        saida.push(no);
                        proof {
                            assert(vista_nos(saida@) =~= vista_nos(antes).push(no@));
                            assert((vista_nos(old(saida)@) + resolver_espec(
                                vista.take(i as int),
                                tabela_espec,
                            )).push(no@) =~= vista_nos(old(saida)@) + (resolver_espec(
                                vista.take(i as int),
                                tabela_espec,
                            ) + seq![no@]));
                        }
                    },
                    None => {
                        proof {
                            assert(false);
                        }
                    },
                }
            },
            None => {
                proof {
                    assert(resolver_espec(vista.take(i as int + 1), tabela_espec)
                        =~= resolver_espec(vista.take(i as int), tabela_espec));
                }
            },
        }
        i += 1;
    }
    proof {
        assert(vista.take(n as int) =~= vista);
    }
}

/// A fatal ingestion fault: the XML parser found the input malformed.
#[derive(Clone, Debug)]
pub struct ErroXml {
    /// The parser's message, naming the position and the fault.
    pub mensagem: String,
}

impl ErroXml {
    /// Reads the message text.
    pub fn texto(&self) -> (r: &str)
        ensures
            r@ == self.mensagem@,
    {
        self.mensagem.as_str()
    }
}

/// Runs the whole pipeline over an OSM XML document: one forward pass
/// classifies the elements and fills the side table, then the buffered
/// medical areas are resolved. The result is the medical nodes in document
/// order followed by the resolved areas in buffer order; a malformed
/// document yields the parser's message instead, and nothing is emitted.
pub fn extrair_osm(bytes: &[u8]) -> (r: Result<Vec<NoOSM>, ErroXml>)
    ensures
        match r {
            Ok(nos) => match pipeline(eventos_de(bytes@)) {
                Ok(s) => vista_nos(nos@) == s,
                Err(_) => false,
            },
            Err(erro) => match pipeline(eventos_de(bytes@)) {
                Ok(_) => false,
                Err(m) => erro.mensagem@ == m,
            },
        },
{
    let mut leitor = novo_leitor(bytes);
    let ghost fluxo = conteudo(leitor);
    let mut estado = EstadoIngestao::novo();
    let ghost mut i: int = 0;
    proof {
        assert(fluxo.subrange(0, fluxo.len() as int) =~= fluxo);
    }
    loop
        invariant
            0 <= i <= fluxo.len(),
            fluxo == eventos_de(bytes@),
            fluxo.len() >= 1,
            eh_terminal(fluxo.last()),
            forall|k: int| 0 <= k < fluxo.len() - 1 ==> !eh_terminal(#[trigger] fluxo[k]),
            forall|k: int| 0 <= k < i ==> !eh_terminal(#[trigger] fluxo[k]),
            conteudo(leitor) == fluxo.subrange(i, fluxo.len() as int),
            executar(estado_inicial(), fluxo) == executar(
                estado@,
                fluxo.subrange(i, fluxo.len() as int),
            ),
        decreases fluxo.len() - i,
    {
        proof {
            assert(i < fluxo.len()) by {
                if i == fluxo.len() {
                    assert(!eh_terminal(fluxo[fluxo.len() - 1]));
                }
            }
        }
        let ghost resto = fluxo.subrange(i, fluxo.len() as int);
        let evento = proximo(&mut leitor);
        proof {
            assert(evento@ == resto[0]);
            assert(resto[0] == fluxo[i]);
            assert(resto.drop_first() =~= fluxo.subrange(i + 1, fluxo.len() as int));
            assert(conteudo(leitor) == fluxo.subrange(i + 1, fluxo.len() as int));
        }
        match evento {
            EventoXml::FimDocumento => {
                proof {
                    assert(executar(estado@, resto) == Ok::<EstadoEspec, Seq<char>>(estado@));
                }
                let EstadoIngestao { nos_medicina, areas_pendentes, nos_coordenadas, .. } = estado;
                let mut resultado = nos_medicina;
                resolver_areas(areas_pendentes, &nos_coordenadas, &mut resultado);
                return Ok(resultado);
            },
            EventoXml::Falha { mensagem } => {
                proof {
                    assert(executar(estado@, resto) == Err::<EstadoEspec, Seq<char>>(mensagem@));
                }
                return Err(ErroXml { mensagem });
            },
            _ => {
                proof {
                    assert(!eh_terminal(evento@));
                    assert(executar(estado@, resto) == executar(
                        passo(estado@, evento@),
                        resto.drop_first(),
                    ));
                }
                estado.processar_evento(evento);
                proof {
                    i = i + 1;
                }
            },
        }
    }
}

} // verus!
