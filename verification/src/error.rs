//! The error taxonomy: a closed tagged union over the failure domains the
//! service depends on, with lossless lifting from each domain and a
//! full-detail diagnostic rendering.

use vstd::prelude::*;

verus! {

use vstd::std_specs::convert::FromSpec;
use vstd::std_specs::convert::FromSpecImpl;
use vstd::string::StringExecFns;

/// Relies on `std::io::Error`: the local/filesystem failure value. Held
/// whole, as an opaque value, so that no structured information (kind,
/// message, platform code) is discarded.
#[verifier::external_type_specification]
#[verifier::external_body]
pub struct ExIoError(std::io::Error);

/// Relies on `hyper::Error`: the HTTP-transport failure value (connection,
/// protocol, or body failure of the HTTP engine). Held whole, as an opaque
/// value.
#[verifier::external_type_specification]
#[verifier::external_body]
pub struct ExHyperError(hyper::Error);

/// The unified failure representation for every fallible internal operation
/// of the service. A closed union: exactly one variant is active, and each
/// variant wraps the originating failure value in full.
pub enum ServerError {
    /// A local/filesystem I/O failure, wrapped without loss.
    IoError(std::io::Error),
    /// An HTTP-transport failure, wrapped without loss.
    TransportError(hyper::Error),
}

impl ServerError {
    /// Whether the active variant is the local I/O domain.
    pub open spec fn is_io_spec(&self) -> bool {
        self matches ServerError::IoError(_)
    }

    /// Whether the active variant is the HTTP-transport domain.
    pub open spec fn is_transport_spec(&self) -> bool {
        self matches ServerError::TransportError(_)
    }

    /// Tests for the local I/O domain.
    pub fn is_io(&self) -> (r: bool)
        ensures
            r == self.is_io_spec(),
    {
        match self {
            ServerError::IoError(_) => true,
            ServerError::TransportError(_) => false,
        }
    }

    /// Tests for the HTTP-transport domain.
    pub fn is_transport(&self) -> (r: bool)
        ensures
            r == self.is_transport_spec(),
    {
        match self {
            ServerError::IoError(_) => false,
            ServerError::TransportError(_) => true,
        }
    }
}

/// Variant exclusivity: every instance is in exactly one failure domain;
/// matching on the other domain cannot succeed.
pub proof fn lemma_variant_exclusive(e: &ServerError)
    ensures
        e.is_io_spec() <==> !e.is_transport_spec(),
{
}

impl From<std::io::Error> for ServerError {
    /// Lifts a local I/O failure into the taxonomy, wrapping the value whole.
    fn from(e: std::io::Error) -> (r: ServerError) {
        ServerError::IoError(e)
    }
}

impl FromSpecImpl<std::io::Error> for ServerError {
    open spec fn obeys_from_spec() -> bool {
        true
    }

    open spec fn from_spec(e: std::io::Error) -> ServerError {
        ServerError::IoError(e)
    }
}

impl From<hyper::Error> for ServerError {
    /// Lifts an HTTP-transport failure into the taxonomy, wrapping the value
    /// whole.
    fn from(e: hyper::Error) -> (r: ServerError) {
        ServerError::TransportError(e)
    }
}

impl FromSpecImpl<hyper::Error> for ServerError {
    open spec fn obeys_from_spec() -> bool {
        true
    }

    open spec fn from_spec(e: hyper::Error) -> ServerError {
        ServerError::TransportError(e)
    }
}

/// The tag that opens the rendering of a variant: the variant's name and the
/// opening parenthesis around its wrapped failure value.
pub open spec fn variant_tag(is_io: bool) -> Seq<char> {
    if is_io {
        "IoError("@
    } else {
        "TransportError("@
    }
}

/// The full diagnostic text for a failure in the given domain whose wrapped
/// value renders as `detail`: the variant tag, the detail verbatim, and a
/// closing parenthesis.
pub open spec fn rendered(is_io: bool, detail: Seq<char>) -> Seq<char> {
    variant_tag(is_io) + detail + ")"@
}

/// Builds the diagnostic text for a failure in the given domain from the
/// wrapped value's already-formatted detail.
pub fn render_with_detail(is_io: bool, detail: &str) -> (r: String)
    ensures
        r@ == rendered(is_io, detail@),
{
    let tag: &str = if is_io {
        "IoError("
    } else {
        "TransportError("
    };
    let mut r: String = tag.to_owned();
    r.append(detail);
    r.append(")");
    r
}

/// Round-trip fidelity of the rendering: the wrapped failure's detail appears
/// verbatim in the rendered text, between the variant tag and the closing
/// parenthesis, so no diagnostic information is lost.
pub proof fn lemma_rendering_keeps_detail(is_io: bool, detail: Seq<char>)
    ensures
        rendered(is_io, detail).subrange(0, variant_tag(is_io).len() as int) == variant_tag(is_io),
        rendered(is_io, detail).subrange(
            variant_tag(is_io).len() as int,
            variant_tag(is_io).len() + detail.len() as int,
        ) == detail,
{
    let tag = variant_tag(is_io);
    assert(rendered(is_io, detail).subrange(0, tag.len() as int) =~= tag);
    assert(rendered(is_io, detail).subrange(tag.len() as int, tag.len() + detail.len() as int)
        =~= detail);
}

/// Relies on the `Debug` rendering of `std::io::Error`: formats the failure's
/// structured information (kind, message, platform code) for diagnostics.
#[verifier::external_body]
fn io_error_detail(e: &std::io::Error) -> String {
    format!("{:?}", e)
}

/// Relies on the `Debug` rendering of `hyper::Error`: formats the failure's
/// kind and cause chain for diagnostics.
#[verifier::external_body]
fn transport_error_detail(e: &hyper::Error) -> String {
    format!("{:?}", e)
}

impl ServerError {
    /// Full-detail diagnostic rendering: the active variant's tag followed, in
    /// parentheses, by the complete debug-level detail of the wrapped failure
    /// value. Deliberately not a curated end-user message.
    pub fn render(&self) -> (r: String)
        ensures
            exists|detail: Seq<char>| r@ == rendered(self.is_io_spec(), detail),
    {
        match self {
            ServerError::IoError(e) => {
                let detail = io_error_detail(e);
                let r = render_with_detail(true, detail.as_str());
                proof {
                    assert(r@ == rendered(self.is_io_spec(), detail@));
                }
                r
            },
            ServerError::TransportError(e) => {
                let detail = transport_error_detail(e);
                let r = render_with_detail(false, detail.as_str());
                proof {
                    assert(r@ == rendered(self.is_io_spec(), detail@));
                }
                r
            },
        }
    }
}

/// Conversion totality: every failure value of either supported domain lifts
/// into the taxonomy — the conversion has no failure mode of its own — and
/// the lifted instance is the matching variant, wrapping the value exactly.
pub proof fn lemma_lifting_total(io: std::io::Error, transport: hyper::Error)
    ensures
        <ServerError as FromSpec<std::io::Error>>::from_spec(io) == ServerError::IoError(io),
        <ServerError as FromSpec<hyper::Error>>::from_spec(transport) == ServerError::TransportError(
            transport,
        ),
{
}

/// The standard result contract: the outcome of a fallible internal
/// operation — an operation-defined success payload, or the unified failure.
/// Every internal operation that can fail returns this alias.
pub type Result<T> = core::result::Result<T, ServerError>;

/// Short-circuit composition under the result contract: an operation runs a
/// first fallible sub-operation and, only on its success, a second one on the
/// payload; the first failure ends the whole operation.
pub open spec fn compose<A, B>(first: Result<A>, rest: spec_fn(A) -> Result<B>) -> Result<B> {
    match first {
        Ok(payload) => rest(payload),
        Err(failure) => Err(failure),
    }
}

/// Propagation transparency: when the first sub-operation fails, the composed
/// operation yields exactly that failure value — no re-wrapping into another
/// variant, no added or removed detail.
pub proof fn lemma_propagation_transparent<A, B>(first: Result<A>, rest: spec_fn(A) -> Result<B>)
    requires
        first is Err,
    ensures
        compose(first, rest) is Err,
        compose(first, rest)->Err_0 == first->Err_0,
{
}

} // verus!
