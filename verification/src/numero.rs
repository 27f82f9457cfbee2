//! Parsing of numeric attribute texts.
//!
//! Attribute values arrive as character strings. An `id` or `ref` is read as
//! a signed 64-bit integer, exactly as the standard decimal grammar has it:
//! an optional sign, then one or more digits, within range. A coordinate is
//! not read as a number at all inside this crate: only its text is checked
//! against the floating-point grammar (an optional sign, then `inf`,
//! `infinity` or `nan` in any letter case, or digits with an optional point
//! and exponent), and an unacceptable text is replaced by `"0"`.

use vstd::prelude::*;
use vstd::string::StrSliceExecFns;

verus! {

/// Whether a character is a decimal digit.
pub open spec fn eh_digito(c: char) -> bool {
    '0' <= c && c <= '9'
}

/// Whether a character is a sign.
pub open spec fn eh_sinal(c: char) -> bool {
    c == '+' || c == '-'
}

/// Whether every character of the text is a decimal digit.
pub open spec fn so_digitos(s: Seq<char>) -> bool {
    forall|i: int| 0 <= i < s.len() ==> eh_digito(s[i])
}

/// The value of a digit string, read left to right.
pub open spec fn valor_digitos(s: Seq<char>) -> int
    decreases s.len(),
{
    if s.len() == 0 {
        0
    } else {
        valor_digitos(s.drop_last()) * 10 + (s.last() as u32 - '0' as u32)
    }
}

/// The text with a leading sign removed.
pub open spec fn corpo_i64(s: Seq<char>) -> Seq<char> {
    if s.len() > 0 && eh_sinal(s[0]) {
        s.drop_first()
    } else {
        s
    }
}

/// Whether the text carries a leading minus sign.
pub open spec fn negativo_i64(s: Seq<char>) -> bool {
    s.len() > 0 && s[0] == '-'
}

/// Whether the text matches the integer grammar: an optional sign, then one
/// or more digits.
pub open spec fn texto_i64_valido(s: Seq<char>) -> bool {
    corpo_i64(s).len() > 0 && so_digitos(corpo_i64(s))
}

/// The signed mathematical value of a text that matches the integer grammar.
pub open spec fn valor_i64(s: Seq<char>) -> int {
    if negativo_i64(s) {
        -valor_digitos(corpo_i64(s))
    } else {
        valor_digitos(corpo_i64(s))
    }
}

/// What reading the text as a signed 64-bit integer yields: its value when
/// the grammar accepts the text and the value is in range, nothing otherwise.
pub open spec fn espec_i64(s: Seq<char>) -> Option<i64> {
    if texto_i64_valido(s) && i64::MIN <= valor_i64(s) && valor_i64(s) <= i64::MAX {
        Some(valor_i64(s) as i64)
    } else {
        None
    }
}

/// The magnitude of the smallest 64-bit integer.
pub const MAGNITUDE_MINIMA: u128 = 9223372036854775808;

/// Reads a signed 64-bit integer from its decimal text.
pub fn analisar_i64(texto: &str) -> (r: Option<i64>)
    ensures
        r == espec_i64(texto@),
{
    let n = texto.unicode_len();
    if n == 0 {
        return None;
    }
    let primeiro = texto.get_char(0);
    let negativo = primeiro == '-';
    let inicio: usize = if negativo || primeiro == '+' {
        1
    } else {
        0
    };
    let ghost corpo = texto@.subrange(inicio as int, n as int);
    proof {
        assert(corpo =~= corpo_i64(texto@));
    }
    if inicio == n {
        return None;
    }
    let mut magnitude: u128 = 0;
    let mut i: usize = inicio;
    while i < n
        invariant
            inicio <= i <= n,
            n == texto@.len(),
            inicio < n,
            corpo == corpo_i64(texto@),
            corpo == texto@.subrange(inicio as int, n as int),
            so_digitos(texto@.subrange(inicio as int, i as int)),
            valor_digitos(texto@.subrange(inicio as int, i as int)) <= MAGNITUDE_MINIMA ==>
                magnitude == valor_digitos(texto@.subrange(inicio as int, i as int)),
            valor_digitos(texto@.subrange(inicio as int, i as int)) > MAGNITUDE_MINIMA ==>
                magnitude > MAGNITUDE_MINIMA,
            magnitude <= 10 * MAGNITUDE_MINIMA + 9,
        decreases n - i,
    {
        let c = texto.get_char(i);
        if !(c >= '0' && c <= '9') {
            proof {
                assert(corpo[i - inicio] == texto@[i as int]);
                assert(!so_digitos(corpo));
            }
            return None;
        }
        let digito = (c as u32) - ('0' as u32);
        proof {
            let antes = texto@.subrange(inicio as int, i as int);
            let depois = texto@.subrange(inicio as int, i as int + 1);
            assert(depois.drop_last() =~= antes);
            assert(depois.last() == texto@[i as int]);
            assert(valor_digitos(depois) == valor_digitos(antes) * 10 + digito);
        }
        if magnitude <= MAGNITUDE_MINIMA {
            magnitude = magnitude * 10 + digito as u128;
        }
        i += 1;
    }
    proof {
        assert(texto@.subrange(inicio as int, i as int) =~= corpo);
    }
    if negativo {
        if magnitude > MAGNITUDE_MINIMA {
            return None;
        }
        if magnitude == MAGNITUDE_MINIMA {
            Some(i64::MIN)
        } else {
            Some(-(magnitude as i64))
        }
    } else {
        if magnitude >= MAGNITUDE_MINIMA {
            return None;
        }
        Some(magnitude as i64)
    }
}

/// One state of the floating-point grammar, read character by character.
#[derive(Clone, Copy, Debug, PartialEq, Eq, Structural)]
pub enum EstadoNum {
    /// Nothing read yet.
    Inicio,
    /// A leading sign was read.
    AposSinal,
    /// One or more digits, no point or exponent yet.
    Inteiro,
    /// A point with no digit before it.
    PontoVazio,
    /// A point was read after digits, or a digit after a leading point.
    Fracao,
    /// An exponent mark was read.
    ExpInicio,
    /// An exponent sign was read.
    ExpSinal,
    /// One or more exponent digits.
    ExpDigitos,
    /// `i` of a special word.
    LetraI,
    /// `in` of a special word.
    LetraIn,
    /// The word `inf`.
    Inf,
    /// `infi`.
    InfQuarta,
    /// `infin`.
    InfQuinta,
    /// `infini`.
    InfSexta,
    /// `infinit`.
    InfSetima,
    /// The word `infinity`.
    Infinito,
    /// `n` of a special word.
    LetraN,
    /// `na` of a special word.
    LetraNa,
    /// The word `nan`.
    Nan,
    /// No continuation can make the text acceptable.
    Invalido,
}

/// Where the first character after an optional sign leads.
pub open spec fn espec_primeiro_passo(c: char) -> EstadoNum {
    if eh_digito(c) {
        EstadoNum::Inteiro
    } else if c == '.' {
        EstadoNum::PontoVazio
    } else if c == 'i' || c == 'I' {
        EstadoNum::LetraI
    } else if c == 'n' || c == 'N' {
        EstadoNum::LetraN
    } else {
        EstadoNum::Invalido
    }
}

/// One step of the floating-point grammar.
pub open spec fn espec_transicao(q: EstadoNum, c: char) -> EstadoNum {
    match q {
        EstadoNum::Inicio => if eh_sinal(c) {
            EstadoNum::AposSinal
        } else {
            espec_primeiro_passo(c)
        },
        EstadoNum::AposSinal => espec_primeiro_passo(c),
        EstadoNum::Inteiro => if eh_digito(c) {
            EstadoNum::Inteiro
        } else if c == '.' {
            EstadoNum::Fracao
        } else if c == 'e' || c == 'E' {
            EstadoNum::ExpInicio
        } else {
            EstadoNum::Invalido
        },
        EstadoNum::PontoVazio => if eh_digito(c) {
            EstadoNum::Fracao
        } else {
            EstadoNum::Invalido
        },
        EstadoNum::Fracao => if eh_digito(c) {
            EstadoNum::Fracao
        } else if c == 'e' || c == 'E' {
            EstadoNum::ExpInicio
        } else {
            EstadoNum::Invalido
        },
        EstadoNum::ExpInicio => if eh_sinal(c) {
            EstadoNum::ExpSinal
        } else if eh_digito(c) {
            EstadoNum::ExpDigitos
        } else {
            EstadoNum::Invalido
        },
        EstadoNum::ExpSinal => if eh_digito(c) {
            EstadoNum::ExpDigitos
        } else {
            EstadoNum::Invalido
        },
        EstadoNum::ExpDigitos => if eh_digito(c) {
            EstadoNum::ExpDigitos
        } else {
            EstadoNum::Invalido
        },
        EstadoNum::LetraI => if c == 'n' || c == 'N' {
            EstadoNum::LetraIn
        } else {
            EstadoNum::Invalido
        },
        EstadoNum::LetraIn => if c == 'f' || c == 'F' {
            EstadoNum::Inf
        } else {
            EstadoNum::Invalido
        },
        EstadoNum::Inf => if c == 'i' || c == 'I' {
            EstadoNum::InfQuarta
        } else {
            EstadoNum::Invalido
        },
        EstadoNum::InfQuarta => if c == 'n' || c == 'N' {
            EstadoNum::InfQuinta
        } else {
            EstadoNum::Invalido
        },
        EstadoNum::InfQuinta => if c == 'i' || c == 'I' {
            EstadoNum::InfSexta
        } else {
            EstadoNum::Invalido
        },
        EstadoNum::InfSexta => if c == 't' || c == 'T' {
            EstadoNum::InfSetima
        } else {
            EstadoNum::Invalido
        },
        EstadoNum::InfSetima => if c == 'y' || c == 'Y' {
            EstadoNum::Infinito
        } else {
            EstadoNum::Invalido
        },
        EstadoNum::Infinito => EstadoNum::Invalido,
        EstadoNum::LetraN => if c == 'a' || c == 'A' {
            EstadoNum::LetraNa
        } else {
            EstadoNum::Invalido
        },
        EstadoNum::LetraNa => if c == 'n' || c == 'N' {
            EstadoNum::Nan
        } else {
            EstadoNum::Invalido
        },
        EstadoNum::Nan => EstadoNum::Invalido,
        EstadoNum::Invalido => EstadoNum::Invalido,
    }
}

/// Whether the grammar accepts a text that ends in this state.
pub open spec fn espec_aceitante(q: EstadoNum) -> bool {
    match q {
        EstadoNum::Inteiro => true,
        EstadoNum::Fracao => true,
        EstadoNum::ExpDigitos => true,
        EstadoNum::Inf => true,
        EstadoNum::Infinito => true,
        EstadoNum::Nan => true,
        _ => false,
    }
}

/// The state the grammar reaches after reading the whole text.
pub open spec fn espec_estado_apos(s: Seq<char>) -> EstadoNum
    decreases s.len(),
{
    if s.len() == 0 {
        EstadoNum::Inicio
    } else {
        espec_transicao(espec_estado_apos(s.drop_last()), s.last())
    }
}

/// Whether the floating-point grammar accepts the text.
pub open spec fn aceita_f64(s: Seq<char>) -> bool {
    espec_aceitante(espec_estado_apos(s))
}

/// One step of the floating-point grammar, decided.
pub fn transicao(q: EstadoNum, c: char) -> (r: EstadoNum)
    ensures
        r == espec_transicao(q, c),
{
    let digito = c >= '0' && c <= '9';
    let sinal = c == '+' || c == '-';
    match q {
        EstadoNum::Inicio => if sinal {
            EstadoNum::AposSinal
        } else {
            primeiro_passo(c)
        },
        EstadoNum::AposSinal => primeiro_passo(c),
        EstadoNum::Inteiro => if digito {
            EstadoNum::Inteiro
        } else if c == '.' {
            EstadoNum::Fracao
        } else if c == 'e' || c == 'E' {
            EstadoNum::ExpInicio
        } else {
            EstadoNum::Invalido
        },
        EstadoNum::PontoVazio => if digito {
            EstadoNum::Fracao
        } else {
            EstadoNum::Invalido
        },
        EstadoNum::Fracao => if digito {
            EstadoNum::Fracao
        } else if c == 'e' || c == 'E' {
            EstadoNum::ExpInicio
        } else {
            EstadoNum::Invalido
        },
        EstadoNum::ExpInicio => if sinal {
            EstadoNum::ExpSinal
        } else if digito {
            EstadoNum::ExpDigitos
        } else {
            EstadoNum::Invalido
        },
        EstadoNum::ExpSinal => if digito {
            EstadoNum::ExpDigitos
        } else {
            EstadoNum::Invalido
        },
        EstadoNum::ExpDigitos => if digito {
            EstadoNum::ExpDigitos
        } else {
            EstadoNum::Invalido
        },
        EstadoNum::LetraI => if c == 'n' || c == 'N' {
            EstadoNum::LetraIn
        } else {
            EstadoNum::Invalido
        },
        EstadoNum::LetraIn => if c == 'f' || c == 'F' {
            EstadoNum::Inf
        } else {
            EstadoNum::Invalido
        },
        EstadoNum::Inf => if c == 'i' || c == 'I' {
            EstadoNum::InfQuarta
        } else {
            EstadoNum::Invalido
        },
        EstadoNum::InfQuarta => if c == 'n' || c == 'N' {
            EstadoNum::InfQuinta
        } else {
            EstadoNum::Invalido
        },
        EstadoNum::InfQuinta => if c == 'i' || c == 'I' {
            EstadoNum::InfSexta
        } else {
            EstadoNum::Invalido
        },
        EstadoNum::InfSexta => if c == 't' || c == 'T' {
            EstadoNum::InfSetima
        } else {
            EstadoNum::Invalido
        },
        EstadoNum::InfSetima => if c == 'y' || c == 'Y' {
            EstadoNum::Infinito
        } else {
            EstadoNum::Invalido
        },
        EstadoNum::Infinito => EstadoNum::Invalido,
        EstadoNum::LetraN => if c == 'a' || c == 'A' {
            EstadoNum::LetraNa
        } else {
            EstadoNum::Invalido
        },
        EstadoNum::LetraNa => if c == 'n' || c == 'N' {
            EstadoNum::Nan
        } else {
            EstadoNum::Invalido
        },
        EstadoNum::Nan => EstadoNum::Invalido,
        EstadoNum::Invalido => EstadoNum::Invalido,
    }
}

/// Where the first character after an optional sign leads, decided.
fn primeiro_passo(c: char) -> (r: EstadoNum)
    ensures
        r == espec_primeiro_passo(c),
{
    if c >= '0' && c <= '9' {
        EstadoNum::Inteiro
    } else if c == '.' {
        EstadoNum::PontoVazio
    } else if c == 'i' || c == 'I' {
        EstadoNum::LetraI
    } else if c == 'n' || c == 'N' {
        EstadoNum::LetraN
    } else {
        EstadoNum::Invalido
    }
}

/// Decides whether the floating-point grammar accepts the text.
pub fn eh_numero_f64(texto: &str) -> (r: bool)
    ensures
        r == aceita_f64(texto@),
{
    let n = texto.unicode_len();
    let mut q = EstadoNum::Inicio;
    let mut i: usize = 0;
    while i < n
        invariant
            i <= n,
            n == texto@.len(),
            q == espec_estado_apos(texto@.subrange(0, i as int)),
        decreases n - i,
    {
        proof {
            let antes = texto@.subrange(0, i as int);
            let depois = texto@.subrange(0, i as int + 1);
            assert(depois.drop_last() =~= antes);
            assert(depois.last() == texto@[i as int]);
        }
        q = transicao(q, texto.get_char(i));
        i += 1;
    }
    proof {
        assert(texto@.subrange(0, i as int) =~= texto@);
    }
    match q {
        EstadoNum::Inteiro => true,
        EstadoNum::Fracao => true,
        EstadoNum::ExpDigitos => true,
        EstadoNum::Inf => true,
        EstadoNum::Infinito => true,
        EstadoNum::Nan => true,
        _ => false,
    }
}

/// What the ingestion keeps for a coordinate attribute: the text itself when
/// the floating-point grammar accepts it, `"0"` otherwise.
pub open spec fn espec_coordenada_texto(s: Seq<char>) -> Seq<char> {
    if aceita_f64(s) {
        s
    } else {
        seq!['0']
    }
}

/// Normalizes a coordinate attribute text.
pub fn texto_coordenada(texto: String) -> (r: String)
    ensures
        r@ == espec_coordenada_texto(texto@),
{
    if eh_numero_f64(texto.as_str()) {
        texto
    } else {
        let zero = "0";
        proof {
            reveal_strlit("0");
            assert(zero@ =~= seq!['0']);
        }
        zero.to_owned()
    }
}

} // verus!
