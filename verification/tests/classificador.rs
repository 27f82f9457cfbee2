//! The classifier and the state machine, driven event by event.

use osm_medicina::eventos::EventoXml;
use osm_medicina::funcoes::EstadoIngestao;
use osm_medicina::funcoes::resolver_areas;
use osm_medicina::tipos::AreaOSM;
use osm_medicina::tipos::FeatureOSM;
use osm_medicina::tipos::NoOSM;

fn inicio(nome: &str, atributos: &[(&str, &str)]) -> EventoXml {
    EventoXml::Inicio {
        nome: nome.to_owned(),
        atributos: atributos
            .iter()
            .map(|(chave, valor)| ((*chave).to_owned(), (*valor).to_owned()))
            .collect(),
    }
}

fn fim(nome: &str) -> EventoXml {
    EventoXml::Fim { nome: nome.to_owned() }
}

#[test]
fn no_com_healthcare_vai_aos_resultados() {
    let mut estado = EstadoIngestao::novo();
    estado.processar_evento(inicio("node", &[("id", "9"), ("lat", "1.5"), ("lon", "2.5")]));
    estado.processar_evento(inicio("tag", &[("k", "healthcare"), ("v", "qualquer")]));
    estado.processar_evento(fim("node"));
    assert_eq!(estado.nos_medicina.len(), 1);
    assert!(estado.nos_medicina[0].e_medicina);
    assert!(!estado.nos_coordenadas.contains_key(&9));
}

#[test]
fn no_comum_vai_so_a_tabela() {
    let mut estado = EstadoIngestao::novo();
    estado.processar_evento(inicio("node", &[("id", "9"), ("lat", "1.5"), ("lon", "2.5")]));
    estado.processar_evento(inicio("tag", &[("k", "name"), ("v", "praca")]));
    estado.processar_evento(fim("node"));
    assert_eq!(estado.nos_medicina.len(), 0);
    let coordenada = estado.nos_coordenadas.get(&9).expect("na tabela");
    assert_eq!(coordenada.x, "2.5");
    assert_eq!(coordenada.y, "1.5");
}

#[test]
fn marca_de_medicina_nunca_reverte() {
    let mut feature = FeatureOSM::No(NoOSM::novo(
        1,
        None,
        String::from("1.0"),
        String::from("2.0"),
        None,
    ));
    feature.add_tag(String::from("healthcare"), String::from("clinic"));
    assert!(feature.e_medicina());
    feature.add_tag(String::from("amenity"), String::from("restaurant"));
    assert!(feature.e_medicina());
    feature.add_tag(String::from("name"), String::from("Central"));
    assert!(feature.e_medicina());
}

#[test]
fn elemento_indefinido_ignora_tags() {
    let mut feature = FeatureOSM::Indefinido;
    feature.add_tag(String::from("healthcare"), String::from("clinic"));
    assert!(!feature.e_medicina());
}

#[test]
fn area_acumula_referencias_em_ordem() {
    let mut area = AreaOSM::novo(3, None, None);
    area.adicionar_no_coordenada(5);
    area.adicionar_no_coordenada(7);
    area.adicionar_no_coordenada(9);
    assert_eq!(area.ref_nos(), &[5, 7, 9]);
    assert_eq!(*area.id(), 3);
    assert_eq!(area.nome(), None);
    area.informar_nome(String::from("B"));
    assert_eq!(area.nome(), Some(&String::from("B")));
}

#[test]
fn resolver_preserva_ordem_do_buffer() {
    let mut estado = EstadoIngestao::novo();
    estado.processar_evento(inicio("node", &[("id", "1"), ("lat", "1.0"), ("lon", "1.0")]));
    estado.processar_evento(fim("node"));
    estado.processar_evento(inicio("node", &[("id", "2"), ("lat", "2.0"), ("lon", "2.0")]));
    estado.processar_evento(fim("node"));
    let mut area_a = AreaOSM::novo(10, None, Some(true));
    area_a.adicionar_no_coordenada(2);
    let mut area_b = AreaOSM::novo(11, None, Some(true));
    area_b.adicionar_no_coordenada(1);
    let mut saida: Vec<NoOSM> = Vec::new();
    resolver_areas(vec![area_a, area_b], &estado.nos_coordenadas, &mut saida);
    assert_eq!(saida.len(), 2);
    assert_eq!(saida[0].id, 10);
    assert_eq!(saida[0].coordenada.x, "2.0");
    assert_eq!(saida[1].id, 11);
    assert_eq!(saida[1].coordenada.x, "1.0");
}

#[test]
fn titulo_do_csv() {
    assert_eq!(NoOSM::titulo_csv(), "Nome;Ponto_WKT;ID_OSM");
}

#[test]
fn novo_no_guarda_as_partes() {
    let no = NoOSM::novo(
        4,
        Some(String::from("Central")),
        String::from("20.0"),
        String::from("10.0"),
        Some(true),
    );
    assert_eq!(no.id(), 4);
    assert_eq!(no.coordenada.x, "10.0");
    assert_eq!(no.coordenada.y, "20.0");
    assert!(no.e_medicina());
    let coordenada = no.coordenada();
    assert_eq!(coordenada.x, "10.0");
    assert_eq!(coordenada.y, "20.0");
}
