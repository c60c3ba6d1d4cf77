use vstd::prelude::*;

verus! {

/// The failures that the codec layer itself raises, and the transport failures
/// that collaborators report.
#[derive(Debug, Clone, PartialEq, Eq)]
pub enum ServerFnErrorErr {
    /// The encoding strategy could not encode a value; holds its description.
    Serialization(String),
    /// The encoding strategy could not decode a body; holds its description.
    Deserialization(String),
    /// A request could not be built or read by the transport.
    Request(String),
    /// A response could not be built or read by the transport.
    Response(String),
}

/// What a `ServerFnErrorErr` holds, as text.
pub enum ServerFnErrorView {
    Serialization(Seq<char>),
    Deserialization(Seq<char>),
    Request(Seq<char>),
    Response(Seq<char>),
}

impl View for ServerFnErrorErr {
    type V = ServerFnErrorView;

    open spec fn view(&self) -> ServerFnErrorView {
        match self {
            ServerFnErrorErr::Serialization(s) => ServerFnErrorView::Serialization(s@),
            ServerFnErrorErr::Deserialization(s) => ServerFnErrorView::Deserialization(s@),
            ServerFnErrorErr::Request(s) => ServerFnErrorView::Request(s@),
            ServerFnErrorErr::Response(s) => ServerFnErrorView::Response(s@),
        }
    }
}

impl ServerFnErrorView {
    /// The description that the failure carries.
    pub open spec fn text(self) -> Seq<char> {
        match self {
            ServerFnErrorView::Serialization(s) => s,
            ServerFnErrorView::Deserialization(s) => s,
            ServerFnErrorView::Request(s) => s,
            ServerFnErrorView::Response(s) => s,
        }
    }
}

impl ServerFnErrorErr {
    /// The description that the failure carries.
    pub fn text(&self) -> (r: &String)
        ensures
            r@ == self@.text(),
    {
        match self {
            ServerFnErrorErr::Serialization(s) => s,
            ServerFnErrorErr::Deserialization(s) => s,
            ServerFnErrorErr::Request(s) => s,
            ServerFnErrorErr::Response(s) => s,
        }
    }
}

/// An application error type into which the codec layer's failures convert.
pub trait FromServerFnError: Sized {
    /// Holds when `self` is the application error that stands for the failure `e`.
    spec fn stands_for(&self, e: ServerFnErrorView) -> bool;

    fn from_server_fn_error(e: ServerFnErrorErr) -> (r: Self)
        ensures
            r.stands_for(e@),
    ;
}

impl FromServerFnError for ServerFnErrorErr {
    open spec fn stands_for(&self, e: ServerFnErrorView) -> bool {
        self@ == e
    }

    fn from_server_fn_error(e: ServerFnErrorErr) -> (r: Self) {
        e
    }
}

/// Converts a failure of this layer into the application error type.
pub fn into_app_error<E: FromServerFnError>(e: ServerFnErrorErr) -> (r: E)
    ensures
        r.stands_for(e@),
{
    E::from_server_fn_error(e)
}

} // verus!
