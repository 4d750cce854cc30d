//! The two interchangeable in-memory triple stores that the benchmark drives,
//! behind a capability surface small enough to time: bulk load from a byte
//! stream, an approximate cardinality, and enumeration of the triples matched
//! by the one fixed (predicate, object) query.
//!
//! Each store is held opaquely; its contents are described to the verifier by
//! an uninterpreted collection view that maps every stored triple to the
//! N-Triples string form of its subject, predicate and object.

use vstd::prelude::*;
use vstd::multiset::Multiset;
use sophia::api::graph::Graph;

verus! {

/// One stored triple, as the N-Triples serialization of its subject,
/// predicate and object, in that order.
pub type TripleForm = (Seq<char>, Seq<char>, Seq<char>);

/// N-Triples form of the RDF `type` predicate.
pub open spec fn rdf_type_form() -> Seq<char> {
    "<http://www.w3.org/1999/02/22-rdf-syntax-ns#type>"@
}

/// N-Triples form of the ontology class the fixed benchmark query asks for.
pub open spec fn person_form() -> Seq<char> {
    "<http://dbpedia.org/ontology/Person>"@
}

/// Whether one stored triple is matched by the fixed (predicate, object)
/// query: predicate `rdf:type`, object the Person class, subject wildcarded.
pub open spec fn is_person_triple(t: TripleForm) -> bool {
    t.1 == rdf_type_form() && t.2 == person_form()
}

/// The part of a store's contents matched by the fixed query.
pub open spec fn person_part(m: Multiset<TripleForm>) -> Multiset<TripleForm> {
    m.filter(|t: TripleForm| is_person_triple(t))
}

/// What sophia's N-Triples parser yields from a byte stream when it is made
/// to keep blank-node labels verbatim (every wrapper below constructs it
/// that way, so the result is a function of the bytes alone): `None` when
/// the stream is not well-formed N-Triples, otherwise the distinct triples
/// that a set-semantics graph retains after inserting every parsed triple,
/// each mapped to its string form.
pub uninterp spec fn parsed_graph(bytes: Seq<u8>) -> Option<Multiset<TripleForm>>;

/// Why a bulk load stopped: the input was rejected by the parser, or the
/// store refused an insertion.
#[derive(Debug)]
pub enum LoadFailure {
    Syntax(String),
    Storage(String),
}

impl LoadFailure {
    /// The diagnostic carried by this failure, for the error stream.
    pub fn detail(&self) -> (d: &String)
        ensures
            self matches LoadFailure::Syntax(x) ==> d@ == x@,
            self matches LoadFailure::Storage(x) ==> d@ == x@,
    {
        match self {
            LoadFailure::Syntax(d) => d,
            LoadFailure::Storage(d) => d,
        }
    }
}

/// The default backend: sophia's `FastGraph`, three indexes, fast to query.
#[verifier::external_body]
pub struct FastStore {
    graph: sophia::inmem::graph::FastGraph,
}

/// What the fast backend currently stores, each triple as its string form.
pub uninterp spec fn fast_triples(s: &FastStore) -> Multiset<TripleForm>;

/// The lighter backend: sophia's `LightGraph`, one index, cheaper to hold.
#[verifier::external_body]
pub struct LightStore {
    graph: sophia::inmem::graph::LightGraph,
}

/// What the light backend currently stores, each triple as its string form.
pub uninterp spec fn light_triples(s: &LightStore) -> Multiset<TripleForm>;

/// The triples still to come from a running enumeration of the fixed query's
/// matches, each as its string form.
pub uninterp spec fn matches_left(it: &PersonMatches) -> Multiset<TripleForm>;

/// A running enumeration of the triples matched by the fixed query, borrowed
/// from the store it walks. Order is backend-defined and nothing is promised
/// about it.
#[verifier::external_body]
pub struct PersonMatches<'a> {
    inner: Box<dyn Iterator<Item = ()> + 'a>,
}

impl<'a> PersonMatches<'a> {
    /// Relies on `Iterator::next` of the boxed match iterator: it yields one
    /// more matching triple while any is left, then `None` once exhausted.
    #[verifier::external_body]
    pub(crate) fn advance(&mut self) -> (r: bool)
        ensures
            r ==> matches_left(old(self)).len() > 0
                && (exists|t: TripleForm|
                    matches_left(old(self)).contains(t)
                        && matches_left(final(self)) == matches_left(old(self)).remove(t))
                && matches_left(final(self)).len() == matches_left(old(self)).len() - 1,
            !r ==> matches_left(old(self)).len() == 0
                && matches_left(final(self)) == matches_left(old(self)),
    {
        self.inner.next().is_some()
    }
}

impl FastStore {
    /// Relies on sophia's `FastGraph::new`: a graph holding no triples.
    #[verifier::external_body]
    pub(crate) fn new() -> (s: Self)
        ensures
            fast_triples(&s) == Multiset::<TripleForm>::empty(),
    {
        FastStore { graph: sophia::inmem::graph::FastGraph::new() }
    }

    /// Relies on sophia's `NTriplesParser` (constructed to preserve
    /// blank-node labels, so what it yields is a function of the bytes
    /// alone) and on `TripleSource::add_to_graph`: every parsed triple is
    /// inserted, the stream stops at the first parser or storage error, and
    /// on success the returned count is the number of triples actually
    /// inserted (the graph has set semantics, so on an empty graph that is
    /// its final size). The only storage error these graphs can raise is the
    /// `u32` term index filling up, which takes more distinct terms than a
    /// `u32` holds, hence more input bytes than that.
    #[verifier::external_body]
    pub(crate) fn load_nt(&mut self, bytes: &[u8]) -> (r: Result<usize, LoadFailure>)
        requires
            fast_triples(old(self)) == Multiset::<TripleForm>::empty(),
        ensures
            r matches Ok(n) ==> parsed_graph(bytes@) matches Some(g)
                && fast_triples(final(self)) == g
                && g.len() <= usize::MAX
                && n == g.len(),
            r matches Err(LoadFailure::Syntax(_)) ==> parsed_graph(bytes@) is None,
            r matches Err(LoadFailure::Storage(_)) ==> bytes@.len() > u32::MAX,
    {
        let parser = sophia::turtle::parser::nt::NTriplesParser::new().with_preserve_bn_labels(
            true,
        );
        let src = sophia::api::parser::TripleParser::parse(&parser, bytes);
        match sophia::api::source::TripleSource::add_to_graph(src, &mut self.graph) {
            Ok(n) => Ok(n),
            Err(sophia::api::source::StreamError::SourceError(e)) => {
                Err(LoadFailure::Syntax(format!("{:?}", e)))
            },
            Err(sophia::api::source::StreamError::SinkError(e)) => {
                Err(LoadFailure::Storage(format!("{:?}", e)))
            },
        }
    }

    /// Relies on `Iterator::size_hint` of sophia's `Graph::triples` iterator:
    /// a cheap, possibly imprecise cardinality estimate, used only for a
    /// diagnostic line, so nothing is promised of it.
    #[verifier::external_body]
    pub(crate) fn triple_count_hint(&self) -> (usize, Option<usize>) {
        self.graph.triples().size_hint()
    }

    /// Relies on sophia's `Graph::triples_matching` with the constant
    /// predicate `rdf:type` and constant object `dbo:Person`: it yields
    /// exactly the stored triples whose predicate and object are term-equal
    /// to those constants, each once, and their count fits in memory.
    #[verifier::external_body]
    pub(crate) fn person_matches<'a>(&'a self) -> (it: PersonMatches<'a>)
        ensures
            matches_left(&it) == person_part(fast_triples(self)),
            matches_left(&it).len() <= usize::MAX,
    {
        let person = sophia::iri::IriRef::new("http://dbpedia.org/ontology/Person").unwrap();
        let inner = self
            .graph
            .triples_matching(sophia::api::term::matcher::Any, [&sophia::api::ns::rdf::type_], [person])
            .map(|_| ());
        PersonMatches { inner: Box::new(inner) }
    }
}

impl LightStore {
    /// Relies on sophia's `LightGraph::new`: a graph holding no triples.
    #[verifier::external_body]
    pub(crate) fn new() -> (s: Self)
        ensures
            light_triples(&s) == Multiset::<TripleForm>::empty(),
    {
        LightStore { graph: sophia::inmem::graph::LightGraph::new() }
    }

    /// Relies on sophia's `NTriplesParser` (blank-node labels preserved) and
    /// on `TripleSource::add_to_graph`, exactly as for the fast backend,
    /// including the byte bound on the one possible storage error.
    #[verifier::external_body]
    pub(crate) fn load_nt(&mut self, bytes: &[u8]) -> (r: Result<usize, LoadFailure>)
        requires
            light_triples(old(self)) == Multiset::<TripleForm>::empty(),
        ensures
            r matches Ok(n) ==> parsed_graph(bytes@) matches Some(g)
                && light_triples(final(self)) == g
                && g.len() <= usize::MAX
                && n == g.len(),
            r matches Err(LoadFailure::Syntax(_)) ==> parsed_graph(bytes@) is None,
            r matches Err(LoadFailure::Storage(_)) ==> bytes@.len() > u32::MAX,
    {
        let parser = sophia::turtle::parser::nt::NTriplesParser::new().with_preserve_bn_labels(
            true,
        );
        let src = sophia::api::parser::TripleParser::parse(&parser, bytes);
        match sophia::api::source::TripleSource::add_to_graph(src, &mut self.graph) {
            Ok(n) => Ok(n),
            Err(sophia::api::source::StreamError::SourceError(e)) => {
                Err(LoadFailure::Syntax(format!("{:?}", e)))
            },
            Err(sophia::api::source::StreamError::SinkError(e)) => {
                Err(LoadFailure::Storage(format!("{:?}", e)))
            },
        }
    }

    /// Relies on `Iterator::size_hint` of sophia's `Graph::triples` iterator,
    /// exactly as for the fast backend: diagnostic only, nothing promised.
    #[verifier::external_body]
    pub(crate) fn triple_count_hint(&self) -> (usize, Option<usize>) {
        self.graph.triples().size_hint()
    }

    /// Relies on sophia's `Graph::triples_matching`, exactly as for the fast
    /// backend.
    #[verifier::external_body]
    pub(crate) fn person_matches<'a>(&'a self) -> (it: PersonMatches<'a>)
        ensures
            matches_left(&it) == person_part(light_triples(self)),
            matches_left(&it).len() <= usize::MAX,
    {
        let person = sophia::iri::IriRef::new("http://dbpedia.org/ontology/Person").unwrap();
        let inner = self
            .graph
            .triples_matching(sophia::api::term::matcher::Any, [&sophia::api::ns::rdf::type_], [person])
            .map(|_| ());
        PersonMatches { inner: Box::new(inner) }
    }
}

/// Which backend a run drives.
#[derive(Clone, Copy, PartialEq, Eq, Structural, Debug)]
pub enum Backend {
    Fast,
    Light,
}

/// A store of either backend, chosen by the dispatcher at run time.
pub enum Store {
    Fast(FastStore),
    Light(LightStore),
}

/// What a store currently holds, whichever backend it is.
pub open spec fn store_triples(s: &Store) -> Multiset<TripleForm> {
    match s {
        Store::Fast(f) => fast_triples(f),
        Store::Light(l) => light_triples(l),
    }
}

impl Store {
    /// An empty store of the requested backend.
    pub fn new(which: Backend) -> (s: Self)
        ensures
            store_triples(&s) == Multiset::<TripleForm>::empty(),
    {
        match which {
            Backend::Fast => Store::Fast(FastStore::new()),
            Backend::Light => Store::Light(LightStore::new()),
        }
    }

    /// Bulk-load a byte stream of N-Triples into this (still empty) store,
    /// stopping at the first parser or storage error.
    pub fn load_nt(&mut self, bytes: &[u8]) -> (r: Result<usize, LoadFailure>)
        requires
            store_triples(old(self)) == Multiset::<TripleForm>::empty(),
        ensures
            r matches Ok(n) ==> parsed_graph(bytes@) matches Some(g)
                && store_triples(final(self)) == g
                && g.len() <= usize::MAX
                && n == g.len(),
            r matches Err(LoadFailure::Syntax(_)) ==> parsed_graph(bytes@) is None,
            r matches Err(LoadFailure::Storage(_)) ==> bytes@.len() > u32::MAX,
            parsed_graph(bytes@) is Some && bytes@.len() <= u32::MAX ==> r is Ok,
    {
        match self {
            Store::Fast(f) => f.load_nt(bytes),
            Store::Light(l) => l.load_nt(bytes),
        }
    }

    /// A cheap, possibly imprecise cardinality estimate, for diagnostics.
    pub fn triple_count_hint(&self) -> (usize, Option<usize>) {
        match self {
            Store::Fast(f) => f.triple_count_hint(),
            Store::Light(l) => l.triple_count_hint(),
        }
    }

    /// Begin enumerating the triples matched by the fixed query.
    pub fn person_matches<'a>(&'a self) -> (it: PersonMatches<'a>)
        ensures
            matches_left(&it) == person_part(store_triples(self)),
            matches_left(&it).len() <= usize::MAX,
    {
        match self {
            Store::Fast(f) => f.person_matches(),
            Store::Light(l) => l.person_matches(),
        }
    }
}

/// Relies on sophia's `NTriplesParser` (blank-node labels preserved) and on
/// `TripleSource::for_each_triple` with a discarding closure: the
/// stream is fully consumed, each triple dropped as soon as it is produced,
/// and it succeeds exactly when the whole input is well-formed N-Triples.
#[verifier::external_body]
pub(crate) fn parse_nt_discard(bytes: &[u8]) -> (r: Result<(), LoadFailure>)
    ensures
        r is Ok <==> parsed_graph(bytes@) is Some,
        r matches Err(f) ==> f matches LoadFailure::Syntax(_),
{
    let parser = sophia::turtle::parser::nt::NTriplesParser::new().with_preserve_bn_labels(
        true,
    );
    let mut src = sophia::api::parser::TripleParser::parse(&parser, bytes);
    match sophia::api::source::TripleSource::for_each_triple(&mut src, |_| ()) {
        Ok(()) => Ok(()),
        Err(e) => Err(LoadFailure::Syntax(format!("{:?}", e))),
    }
}

} // verus!
