//! The whole pipeline, run over small OSM XML documents.

use osm_medicina::funcoes::extrair_osm;
use osm_medicina::tipos::NoOSM;

fn rodar(texto: &str) -> Vec<NoOSM> {
    extrair_osm(texto.as_bytes()).expect("documento bem formado")
}

fn coordenada_f64(no: &NoOSM) -> (f64, f64) {
    (
        no.coordenada.x.parse::<f64>().unwrap_or(0.0),
        no.coordenada.y.parse::<f64>().unwrap_or(0.0),
    )
}

#[test]
fn no_medico_com_nome() {
    let texto = r#"<osm>
        <node id="1" lat="20.0" lon="10.0">
            <tag k="amenity" v="hospital"/>
            <tag k="name" v="Central"/>
        </node>
    </osm>"#;
    let nos = rodar(texto);
    assert_eq!(nos.len(), 1);
    assert_eq!(nos[0].id, 1);
    assert_eq!(nos[0].name.as_deref(), Some("Central"));
    assert!(nos[0].e_medicina);
    assert_eq!(coordenada_f64(&nos[0]), (10.0, 20.0));
}

#[test]
fn latitude_ilegivel_vira_zero() {
    let texto = r#"<osm>
        <node id="2" lat="abc" lon="10.5">
            <tag k="healthcare" v="clinic"/>
        </node>
    </osm>"#;
    let nos = rodar(texto);
    assert_eq!(nos.len(), 1);
    assert_eq!(nos[0].coordenada.y, "0");
    assert_eq!(coordenada_f64(&nos[0]), (10.5, 0.0));
}

#[test]
fn xml_malformado_aborta() {
    let resultado = extrair_osm(br#"<osm><node id="1" lat="1.0""#);
    let erro = resultado.expect_err("documento truncado");
    assert!(!erro.texto().is_empty());
}

#[test]
fn xml_vazio_malformado() {
    assert!(extrair_osm(b"").is_err());
}

#[test]
fn cenario_completo() {
    let texto = r#"<osm>
        <node id="1" lat="1.0" lon="2.0">
            <tag k="amenity" v="pharmacy"/>
            <tag k="name" v="A"/>
        </node>
        <node id="2" lat="3.5" lon="4.5"/>
        <way id="10">
            <nd ref="2"/>
            <tag k="healthcare" v="hospital"/>
            <tag k="name" v="B"/>
        </way>
    </osm>"#;
    let nos = rodar(texto);
    assert_eq!(nos.len(), 2);
    assert_eq!(nos[0].id, 1);
    assert_eq!(nos[0].name.as_deref(), Some("A"));
    assert_eq!(coordenada_f64(&nos[0]), (2.0, 1.0));
    assert_eq!(nos[1].id, 10);
    assert_eq!(nos[1].name.as_deref(), Some("B"));
    assert!(nos[1].e_medicina);
    assert_eq!(coordenada_f64(&nos[1]), (4.5, 3.5));
}

#[test]
fn area_resolve_primeira_referencia_presente() {
    let texto = r#"<osm>
        <node id="7" lat="20.0" lon="10.0"/>
        <way id="30">
            <nd ref="5"/>
            <nd ref="7"/>
            <nd ref="9"/>
            <tag k="healthcare" v="doctor"/>
        </way>
    </osm>"#;
    let nos = rodar(texto);
    assert_eq!(nos.len(), 1);
    assert_eq!(nos[0].id, 30);
    assert_eq!(coordenada_f64(&nos[0]), (10.0, 20.0));
}

#[test]
fn area_sem_referencia_conhecida_nada_emite() {
    let texto = r#"<osm>
        <way id="40">
            <nd ref="100"/>
            <nd ref="200"/>
            <tag k="healthcare" v="clinic"/>
        </way>
    </osm>"#;
    let nos = rodar(texto);
    assert_eq!(nos.len(), 0);
}

#[test]
fn rodar_duas_vezes_da_o_mesmo() {
    let texto = r#"<osm>
        <node id="1" lat="1.0" lon="2.0"><tag k="healthcare" v="x"/></node>
        <node id="2" lat="3.0" lon="4.0"/>
        <way id="5"><nd ref="2"/><tag k="amenity" v="clinic"/></way>
    </osm>"#;
    let primeira = rodar(texto);
    let segunda = rodar(texto);
    assert_eq!(primeira.len(), segunda.len());
    for (a, b) in primeira.iter().zip(segunda.iter()) {
        assert_eq!(a.id, b.id);
        assert_eq!(a.name, b.name);
        assert_eq!(a.coordenada.x, b.coordenada.x);
        assert_eq!(a.coordenada.y, b.coordenada.y);
        assert_eq!(a.e_medicina, b.e_medicina);
    }
}

#[test]
fn no_comum_so_alimenta_tabela() {
    let texto = r#"<osm>
        <node id="1" lat="1.0" lon="2.0"><tag k="name" v="comum"/></node>
    </osm>"#;
    let nos = rodar(texto);
    assert_eq!(nos.len(), 0);
}

#[test]
fn ultima_escrita_vence_na_tabela() {
    let texto = r#"<osm>
        <node id="5" lat="1.0" lon="1.0"/>
        <node id="5" lat="9.0" lon="8.0"/>
        <way id="6"><nd ref="5"/><tag k="healthcare" v="clinic"/></way>
    </osm>"#;
    let nos = rodar(texto);
    assert_eq!(nos.len(), 1);
    assert_eq!(coordenada_f64(&nos[0]), (8.0, 9.0));
}

#[test]
fn referencia_ilegivel_ignorada() {
    let texto = r#"<osm>
        <node id="2" lat="3.0" lon="4.0"/>
        <way id="7"><nd ref="xyz"/><nd ref="2"/><tag k="healthcare" v="c"/></way>
    </osm>"#;
    let nos = rodar(texto);
    assert_eq!(nos.len(), 1);
    assert_eq!(coordenada_f64(&nos[0]), (4.0, 3.0));
}

#[test]
fn atributos_ausentes_viram_zero() {
    let texto = r#"<osm>
        <node><tag k="healthcare" v="c"/></node>
    </osm>"#;
    let nos = rodar(texto);
    assert_eq!(nos.len(), 1);
    assert_eq!(nos[0].id, 0);
    assert_eq!(nos[0].coordenada.x, "0");
    assert_eq!(nos[0].coordenada.y, "0");
}

#[test]
fn nd_fora_de_area_ignorado() {
    let texto = r#"<osm>
        <node id="1" lat="1.0" lon="2.0"><nd ref="7"/><tag k="healthcare" v="c"/></node>
    </osm>"#;
    let nos = rodar(texto);
    assert_eq!(nos.len(), 1);
    assert_eq!(nos[0].id, 1);
}

#[test]
fn amenity_fora_da_lista_nao_marca() {
    let texto = r#"<osm>
        <node id="1" lat="1.0" lon="2.0"><tag k="amenity" v="restaurant"/></node>
    </osm>"#;
    assert_eq!(rodar(texto).len(), 0);
}

#[test]
fn todos_os_valores_de_amenity_marcam() {
    for valor in ["clinic", "doctors", "nursing_home", "hospital", "pharmacy", "social_facility"] {
        let texto = format!(
            r#"<osm><node id="1" lat="1.0" lon="2.0"><tag k="amenity" v="{valor}"/></node></osm>"#
        );
        assert_eq!(rodar(&texto).len(), 1, "amenity: {valor}");
    }
}
