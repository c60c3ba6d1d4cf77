use vstd::prelude::*;
use crate::codec::{ContentType, Decodes, Encodes, Encoding, Put, RoundTrip, put_method_spec};
use crate::error::{into_app_error, FromServerFnError, ServerFnErrorErr, ServerFnErrorView};
use crate::transport::{Request, RequestView, Response, ResponseView};

verus! {

impl<Codec: ContentType> Put<Codec> {
    /// The request that carries `body` to `path` under this codec.
    pub open spec fn put_request(path: Seq<char>, accepts: Seq<char>, body: Seq<u8>) -> RequestView {
        RequestView {
            method: put_method_spec(),
            path,
            accepts,
            content_type: Codec::spec_content_type(),
            body,
        }
    }

    /// The response that carries `body` under this codec.
    pub open spec fn put_response(body: Seq<u8>) -> ResponseView {
        ResponseView { content_type: Codec::spec_content_type(), body }
    }

    /// Builds the request for an encoder's outcome: its bytes, or its failure as a
    /// `Serialization` error.
    pub fn request_from_encoded<E: FromServerFnError>(
        encoded: Result<Vec<u8>, String>,
        path: &str,
        accepts: &str,
    ) -> (r: Result<Request, E>)
        ensures
            match encoded {
                Ok(bytes) => r is Ok && r->Ok_0@ == Self::put_request(path@, accepts@, bytes@),
                Err(d) => r is Err && r->Err_0.stands_for(ServerFnErrorView::Serialization(d@)),
            },
    {
        match encoded {
            Ok(data) => {
                let method = Self::method();
                Ok(Request::new_bytes(method.as_str(), path, accepts, Codec::content_type(), data))
            },
            Err(d) => Err(into_app_error(ServerFnErrorErr::Serialization(d))),
        }
    }

    /// Encodes `value` into the body of a PUT request to `path`.
    pub fn into_req<T: View, E: FromServerFnError>(value: T, path: &str, accepts: &str) -> (r: Result<
        Request,
        E,
    >) where Codec: Encodes<T>
        ensures
            match Codec::spec_encode(value@) {
                Ok(bytes) => r is Ok && r->Ok_0@ == Self::put_request(path@, accepts@, bytes),
                Err(d) => r is Err && r->Err_0.stands_for(ServerFnErrorView::Serialization(d)),
            },
    {
        Self::request_from_encoded(Codec::encode(value), path, accepts)
    }

    /// Decodes a value from the outcome of draining a body: a transport failure is
    /// handed on unchanged, a decoder failure becomes a `Deserialization` error.
    pub fn from_bytes_result<T: View, E: FromServerFnError>(data: Result<Vec<u8>, E>) -> (r: Result<
        T,
        E,
    >) where Codec: Decodes<T>
        ensures
            match data {
                Err(e) => r == Err::<T, E>(e),
                Ok(bytes) => match Codec::spec_decode(bytes@) {
                    Ok(value) => r is Ok && r->Ok_0@ == value,
                    Err(d) => r is Err && r->Err_0.stands_for(
                        ServerFnErrorView::Deserialization(d),
                    ),
                },
            },
    {
        match data {
            Err(e) => Err(e),
            Ok(bytes) => match Codec::decode(bytes) {
                Ok(value) => Ok(value),
                Err(d) => Err(into_app_error(ServerFnErrorErr::Deserialization(d))),
            },
        }
    }

    /// Decodes the value that the body of `req` carries.
    pub fn from_req<T: View, E: FromServerFnError>(req: Request) -> (r: Result<T, E>) where
        Codec: Decodes<T>,
        ensures
            match Codec::spec_decode(req@.body) {
                Ok(value) => r is Ok && r->Ok_0@ == value,
                Err(d) => r is Err && r->Err_0.stands_for(ServerFnErrorView::Deserialization(d)),
            },
    {
        Self::from_bytes_result(Ok(req.into_bytes()))
    }

    /// Builds the response for an encoder's outcome: its bytes, or its failure as a
    /// `Serialization` error.
    pub fn response_from_encoded<E: FromServerFnError>(encoded: Result<Vec<u8>, String>) -> (r:
        Result<Response, E>)
        ensures
            match encoded {
                Ok(bytes) => r is Ok && r->Ok_0@ == Self::put_response(bytes@),
                Err(d) => r is Err && r->Err_0.stands_for(ServerFnErrorView::Serialization(d@)),
            },
    {
        match encoded {
            Ok(data) => Ok(Response::from_bytes(Codec::content_type(), data)),
            Err(d) => Err(into_app_error(ServerFnErrorErr::Serialization(d))),
        }
    }

    /// Encodes `value`, the result of a call, into the body of a response.
    pub fn into_res<T: View, E: FromServerFnError>(value: T) -> (r: Result<Response, E>) where
        Codec: Encodes<T>,
        ensures
            match Codec::spec_encode(value@) {
                Ok(bytes) => r is Ok && r->Ok_0@ == Self::put_response(bytes),
                Err(d) => r is Err && r->Err_0.stands_for(ServerFnErrorView::Serialization(d)),
            },
    {
        Self::response_from_encoded(Codec::encode(value))
    }

    /// Decodes the value that the body of `res` carries.
    pub fn from_res<T: View, E: FromServerFnError>(res: Response) -> (r: Result<T, E>) where
        Codec: Decodes<T>,
        ensures
            match Codec::spec_decode(res@.body) {
                Ok(value) => r is Ok && r->Ok_0@ == value,
                Err(d) => r is Err && r->Err_0.stands_for(ServerFnErrorView::Deserialization(d)),
            },
    {
        Self::from_bytes_result(Ok(res.into_bytes()))
    }

    /// A value that the strategy can encode comes back from the body of the request
    /// that `into_req` builds for it, and from the body of the response that
    /// `into_res` builds for it, when the strategy's decode inverts its encode.
    pub proof fn lemma_round_trip<T: View>(value: T::V, path: Seq<char>, accepts: Seq<char>) where
        Codec: RoundTrip<T>,
        requires
            Codec::spec_encode(value) is Ok,
        ensures
            Codec::spec_decode(
                Self::put_request(path, accepts, Codec::spec_encode(value)->Ok_0).body,
            ) == Ok::<T::V, Seq<char>>(value),
            Codec::spec_decode(Self::put_response(Codec::spec_encode(value)->Ok_0).body) == Ok::<
                T::V,
                Seq<char>,
            >(value),
    {
        Codec::lemma_decode_encode(value);
    }

    /// Every request and response that this codec builds carries the inner
    /// strategy's content type, which is also the codec's own.
    pub proof fn lemma_content_type_propagates(
        path: Seq<char>,
        accepts: Seq<char>,
        body: Seq<u8>,
    )
        ensures
            Self::spec_content_type() == Codec::spec_content_type(),
            Self::put_request(path, accepts, body).content_type == Codec::spec_content_type(),
            Self::put_response(body).content_type == Codec::spec_content_type(),
    {
    }

    /// Every request that this codec builds carries the PUT method, whatever its
    /// path, headers or body.
    pub proof fn lemma_method_fixed(path: Seq<char>, accepts: Seq<char>, body: Seq<u8>)
        ensures
            Self::spec_method() == put_method_spec(),
            Self::put_request(path, accepts, body).method == put_method_spec(),
    {
    }
}

} // verus!
