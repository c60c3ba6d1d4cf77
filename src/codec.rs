use vstd::prelude::*;
use std::marker::PhantomData;

verus! {

/// A fixed MIME type for a codec.
pub trait ContentType {
    /// The MIME type, as text.
    spec fn spec_content_type() -> Seq<char>;

    fn content_type() -> (r: &'static str)
        ensures
            r@ == Self::spec_content_type(),
    ;
}

/// A codec that sends its payload in a body, under a fixed HTTP method.
pub trait Encoding: ContentType {
    /// The name of the HTTP method.
    spec fn spec_method() -> Seq<char>;

    fn method() -> (r: String)
        ensures
            r@ == Self::spec_method(),
    ;
}

/// A strategy that encodes values of `T` as bytes. What it writes depends on
/// the value's view alone.
pub trait Encodes<T: View>: ContentType {
    /// The bytes that encode `value`, or the description of why it cannot be encoded.
    spec fn spec_encode(value: T::V) -> Result<Seq<u8>, Seq<char>>;

    fn encode(value: T) -> (r: Result<Vec<u8>, String>)
        ensures
            match r {
                Ok(bytes) => Self::spec_encode(value@) == Ok::<Seq<u8>, Seq<char>>(bytes@),
                Err(d) => Self::spec_encode(value@) == Err::<Seq<u8>, Seq<char>>(d@),
            },
    ;
}

/// A strategy that decodes values of `T` from bytes.
pub trait Decodes<T: View>: ContentType {
    /// The view of the value that `bytes` encode, or the description of why they
    /// do not encode one.
    spec fn spec_decode(bytes: Seq<u8>) -> Result<T::V, Seq<char>>;

    fn decode(bytes: Vec<u8>) -> (r: Result<T, String>)
        ensures
            match r {
                Ok(value) => Self::spec_decode(bytes@) == Ok::<T::V, Seq<char>>(value@),
                Err(d) => Self::spec_decode(bytes@) == Err::<T::V, Seq<char>>(d@),
            },
    ;
}

/// A strategy whose decode inverts its encode on every value that it can encode.
pub trait RoundTrip<T: View>: Encodes<T> + Decodes<T> {
    proof fn lemma_decode_encode(value: T::V)
        requires
            Self::spec_encode(value) is Ok,
        ensures
            Self::spec_decode(Self::spec_encode(value)->Ok_0) == Ok::<T::V, Seq<char>>(value),
    ;
}

/// A codec that encodes the data in the body of a PUT request.
pub struct Put<Codec>(PhantomData<Codec>);

impl<Codec: ContentType> ContentType for Put<Codec> {
    open spec fn spec_content_type() -> Seq<char> {
        Codec::spec_content_type()
    }

    fn content_type() -> (r: &'static str) {
        Codec::content_type()
    }
}

/// The name of the PUT method.
pub open spec fn put_method_spec() -> Seq<char> {
    seq!['P', 'U', 'T']
}

/// Relies on http::Method::PUT and Method::as_str, which names a standard method
/// by its upper-case token.
#[verifier::external_body]
fn put_method_name() -> (r: String)
    ensures
        r@ == put_method_spec(),
{
    http::Method::PUT.as_str().to_string()
}

impl<Codec: ContentType> Encoding for Put<Codec> {
    open spec fn spec_method() -> Seq<char> {
        put_method_spec()
    }

    fn method() -> (r: String) {
        put_method_name()
    }
}

} // verus!
