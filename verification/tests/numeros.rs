//! The numeric text readers, held against the standard library's parsers.

use osm_medicina::numero::analisar_i64;
use osm_medicina::numero::eh_numero_f64;
use osm_medicina::numero::texto_coordenada;

#[test]
fn i64_valores_simples() {
    assert_eq!(analisar_i64("0"), Some(0));
    assert_eq!(analisar_i64("123"), Some(123));
    assert_eq!(analisar_i64("+5"), Some(5));
    assert_eq!(analisar_i64("-7"), Some(-7));
    assert_eq!(analisar_i64("007"), Some(7));
}

#[test]
fn i64_limites() {
    assert_eq!(analisar_i64("9223372036854775807"), Some(i64::MAX));
    assert_eq!(analisar_i64("9223372036854775808"), None);
    assert_eq!(analisar_i64("-9223372036854775808"), Some(i64::MIN));
    assert_eq!(analisar_i64("-9223372036854775809"), None);
    assert_eq!(analisar_i64("99999999999999999999999999"), None);
}

#[test]
fn i64_recusas() {
    assert_eq!(analisar_i64(""), None);
    assert_eq!(analisar_i64("+"), None);
    assert_eq!(analisar_i64("-"), None);
    assert_eq!(analisar_i64("abc"), None);
    assert_eq!(analisar_i64("12a"), None);
    assert_eq!(analisar_i64(" 1"), None);
    assert_eq!(analisar_i64("1 "), None);
    assert_eq!(analisar_i64("--1"), None);
    assert_eq!(analisar_i64("1.0"), None);
}

#[test]
fn i64_concorda_com_std() {
    let casos = [
        "", "0", "1", "-1", "+1", "++1", "+-1", "007", "12a", "a12", " 1", "1 ", "1_000",
        "9223372036854775807", "9223372036854775808", "-9223372036854775808",
        "-9223372036854775809", "18446744073709551615", "0000000000000000000000005",
    ];
    for caso in casos {
        assert_eq!(analisar_i64(caso), caso.parse::<i64>().ok(), "texto: {caso:?}");
    }
}

#[test]
fn f64_concorda_com_std() {
    let casos = [
        "", "0", "1", "1.", ".5", "1.5", "1.5e3", "1.5E3", "1e+5", "1e-5", "+.5e-2", "1.e5",
        ".e5", "1e", "e5", "5e", ".", "+", "-", "+1", "-1.25", "--1", "1.2.3", " 1", "1 ",
        "inf", "-inf", "+inf", "Inf", "INF", "infinity", "Infinity", "INFINITY", "infin",
        "infinityy", "nan", "NaN", "NAN", "-nan", "nan(3)", "0x1", "1_0", "2e308", "1e-400",
    ];
    for caso in casos {
        assert_eq!(
            eh_numero_f64(caso),
            caso.parse::<f64>().is_ok(),
            "texto: {caso:?}"
        );
    }
}

#[test]
fn coordenada_normalizada() {
    assert_eq!(texto_coordenada(String::from("20.5")), "20.5");
    assert_eq!(texto_coordenada(String::from("abc")), "0");
    assert_eq!(texto_coordenada(String::from("")), "0");
    assert_eq!(texto_coordenada(String::from("-1e-3")), "-1e-3");
}
