//! The XML token stream, reduced to the events the ingestion reads.
//!
//! The stream itself comes from the `xml` crate's pull parser; this module
//! declares that reader and wraps the two calls the pipeline makes. The
//! stream a reader will hand back is a function of the bytes it was built
//! over, which is what lets the whole pipeline state its result over the
//! input bytes alone.

use vstd::prelude::*;

verus! {

/// One event of the XML token stream.
pub enum EventoXml {
    /// An element opens: its local name and its attributes (local name and
    /// value), in document order.
    Inicio { nome: String, atributos: Vec<(String, String)> },
    /// An element closes: its local name.
    Fim { nome: String },
    /// The document ended normally.
    FimDocumento,
    /// The parser found the input malformed; the text names the position and
    /// the fault.
    Falha { mensagem: String },
    /// Any other event: document start, text, comments, processing
    /// instructions.
    Outro,
}

/// The mathematical value of an [`EventoXml`].
pub enum EventoEspec {
    Inicio { nome: Seq<char>, atributos: Seq<(Seq<char>, Seq<char>)> },
    Fim { nome: Seq<char> },
    FimDocumento,
    Falha { mensagem: Seq<char> },
    Outro,
}

/// The views of a list of attributes.
pub open spec fn vista_atributos(atributos: Seq<(String, String)>) -> Seq<(Seq<char>, Seq<char>)> {
    atributos.map_values(|par: (String, String)| (par.0@, par.1@))
}

impl View for EventoXml {
    type V = EventoEspec;

    open spec fn view(&self) -> EventoEspec {
        match self {
            EventoXml::Inicio { nome, atributos } => EventoEspec::Inicio {
                nome: nome@,
                atributos: vista_atributos(atributos@),
            },
            EventoXml::Fim { nome } => EventoEspec::Fim { nome: nome@ },
            EventoXml::FimDocumento => EventoEspec::FimDocumento,
            EventoXml::Falha { mensagem } => EventoEspec::Falha { mensagem: mensagem@ },
            EventoXml::Outro => EventoEspec::Outro,
        }
    }
}

/// Whether an event ends the pass: the document closed or the parser failed.
pub open spec fn eh_terminal(e: EventoEspec) -> bool {
    e is FimDocumento || e is Falha
}

/// The pull parser of the `xml` crate over a copy of the input bytes, held
/// opaquely: only [`conteudo`] speaks of its state.
#[verifier::external_body]
pub struct LeitorXml {
    interno: xml::reader::EventReader<std::io::Cursor<Vec<u8>>>,
}

/// The events a reader will still hand back, in order, up to and including
/// the first terminal one.
pub uninterp spec fn conteudo(leitor: LeitorXml) -> Seq<EventoEspec>;

/// The events that parsing the given bytes yields, up to and including the
/// first terminal one.
pub uninterp spec fn eventos_de(bytes: Seq<u8>) -> Seq<EventoEspec>;

/// Relies on `xml::reader::EventReader::new`: a reader over a byte slice
/// reads nothing else, so the events it will hand back are a function of the
/// bytes alone; the stream ends with exactly one terminal event, an
/// end-of-document mark or a failure, and with nothing after it.
#[verifier::external_body]
pub fn novo_leitor(bytes: &[u8]) -> (leitor: LeitorXml)
    ensures
        conteudo(leitor) == eventos_de(bytes@),
        conteudo(leitor).len() >= 1,
        eh_terminal(conteudo(leitor).last()),
        forall|i: int| 0 <= i < conteudo(leitor).len() - 1 ==> !eh_terminal(
            #[trigger] conteudo(leitor)[i],
        ),
{
    LeitorXml { interno: xml::reader::EventReader::new(std::io::Cursor::new(bytes.to_vec())) }
}

/// Relies on `xml::reader::EventReader::next`: pulls the next event of the
/// stream; an opening tag carries the element's local name and its
/// attributes' local names and values in document order, a closing tag the
/// element's local name.
#[verifier::external_body]
pub fn proximo(leitor: &mut LeitorXml) -> (evento: EventoXml)
    requires
        conteudo(*old(leitor)).len() >= 1,
    ensures
        evento@ == conteudo(*old(leitor))[0],
        conteudo(*final(leitor)) == conteudo(*old(leitor)).drop_first(),
{
    match leitor.interno.next() {
        Ok(xml::reader::XmlEvent::StartElement { name, attributes, .. }) => EventoXml::Inicio {
            nome: name.local_name,
            atributos: attributes.into_iter().map(|a| (a.name.local_name, a.value)).collect(),
        },
        Ok(xml::reader::XmlEvent::EndElement { name }) => EventoXml::Fim { nome: name.local_name },
        Ok(xml::reader::XmlEvent::EndDocument) => EventoXml::FimDocumento,
        Ok(_) => EventoXml::Outro,
        Err(erro) => EventoXml::Falha { mensagem: format!("{erro}") },
    }
}

} // verus!
