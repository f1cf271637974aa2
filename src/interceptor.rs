//! The credential interceptor attached to every outbound call.
use vstd::prelude::*;
use vstd::utf8::encode_utf8;
use tonic::metadata::errors::InvalidMetadataValue;
use crate::error::{CredentialFormatError, GeyserGrpcClientError};

verus! {

/// `tonic::Request`: an outbound call envelope.
#[verifier::external_type_specification]
#[verifier::external_body]
#[verifier::reject_recursive_types(T)]
pub struct ExRequest<T>(tonic::Request<T>);

/// `tonic::metadata::errors::InvalidMetadataValue`: why a value failed to convert.
#[verifier::external_type_specification]
#[verifier::external_body]
pub struct ExInvalidMetadataValue(InvalidMetadataValue);

/// The metadata key under which the credential travels.
pub const X_TOKEN_KEY: &'static str = "x-token";

/// What a request's metadata map holds: for each key, its values in order,
/// each as the bytes it holds.
pub uninterp spec fn request_metadata(r: tonic::Request<()>) -> Map<Seq<char>, Seq<Seq<u8>>>;

/// A byte that an ASCII metadata value may hold: tab, or anything from 32 up
/// but DEL.
pub open spec fn is_metadata_byte(b: u8) -> bool {
    (32 <= b && b != 127) || b == 9
}

/// A string whose UTF-8 encoding converts to an ASCII metadata value.
pub open spec fn is_metadata_str(s: Seq<char>) -> bool {
    forall|i: int| 0 <= i < encode_utf8(s).len() ==> #[trigger] is_metadata_byte(encode_utf8(s)[i])
}

/// A printable ASCII byte: space up to tilde.
pub open spec fn is_printable_byte(b: u8) -> bool {
    32 <= b && b <= 126
}

/// A credential whose every byte is printable ASCII.
pub open spec fn is_credential_text(s: Seq<char>) -> bool {
    forall|i: int| 0 <= i < encode_utf8(s).len() ==> #[trigger] is_printable_byte(encode_utf8(s)[i])
}

/// `e` names the first byte of `s`'s encoding that is not printable ASCII.
pub open spec fn first_bad_byte(s: Seq<char>, e: CredentialFormatError) -> bool {
    &&& e.index < encode_utf8(s).len()
    &&& e.byte == encode_utf8(s)[e.index as int]
    &&& !is_printable_byte(e.byte)
    &&& forall|j: int| 0 <= j < e.index ==> #[trigger] is_printable_byte(encode_utf8(s)[j])
}

/// A key that names an ASCII (not "-bin") metadata entry: lower-case letters,
/// digits and dashes, not empty, and not ending in "-bin".
pub open spec fn is_plain_metadata_key(k: Seq<char>) -> bool {
    &&& 0 < k.len() < 256
    &&& forall|i: int| 0 <= i < k.len() ==> {
        let c = #[trigger] k[i];
        ('a' <= c && c <= 'z') || ('0' <= c && c <= '9') || c == '-'
    }
    &&& !(k.len() >= 4 && k.subrange(k.len() - 4, k.len() as int) == seq!['-', 'b', 'i', 'n'])
}

/// The metadata a call carries after interception: the credential, if any,
/// as the only value under the credential key; everything else as it was.
pub open spec fn intercepted_metadata(
    token: Option<Seq<char>>,
    m: Map<Seq<char>, Seq<Seq<u8>>>,
) -> Map<Seq<char>, Seq<Seq<u8>>> {
    match token {
        Some(t) => m.insert(X_TOKEN_KEY@, seq![encode_utf8(t)]),
        None => m,
    }
}

/// Relies on `MetadataMap::insert` on the request's metadata, which replaces
/// every earlier value under the key, with the value converted by
/// `AsciiMetadataValue::try_from(&str)` (`HeaderValue::from_str`'s byte test).
/// The converted value cannot cross into verified code, because
/// `MetadataValue`'s encoding bound is private to tonic. A key of the
/// accepted shape does not make `insert` (through `HeaderName::from_static`)
/// panic, and is stored as written.
#[verifier::external_body]
fn insert_metadata(request: &mut tonic::Request<()>, key: &'static str, value: &str) -> (r: Result<
    (),
    InvalidMetadataValue,
>)
    requires
        is_plain_metadata_key(key@),
    ensures
        r.is_ok() == is_metadata_str(value@),
        r.is_ok() ==> request_metadata(*final(request)) == request_metadata(*old(request)).insert(
            key@,
            seq![encode_utf8(value@)],
        ),
        r.is_err() ==> *final(request) == *old(request),
{
    match tonic::metadata::AsciiMetadataValue::try_from(value) {
        Ok(v) => {
            request.metadata_mut().insert(key, v);
            Ok(())
        },
        Err(e) => Err(e),
    }
}

/// Finds the first byte of the credential that is not printable ASCII.
pub fn check_credential(s: &str) -> (r: Result<(), CredentialFormatError>)
    ensures
        r is Ok <==> is_credential_text(s@),
        r matches Err(e) ==> first_bad_byte(s@, e),
{
    let bytes = s.as_bytes();
    let mut i: usize = 0;
    while i < bytes.len()
        invariant
            i <= bytes@.len(),
            bytes@ == encode_utf8(s@),
            forall|j: int| 0 <= j < i ==> #[trigger] is_printable_byte(bytes@[j]),
        decreases bytes@.len() - i,
    {
        let b = bytes[i];
        if b < 32 || b > 126 {
            proof {
                assert(!is_printable_byte(encode_utf8(s@)[i as int]));
            }
            return Err(CredentialFormatError { index: i, byte: b });
        }
        i = i + 1;
    }
    Ok(())
}

/// Attaches the configured credential, if any, to each outbound call.
#[derive(Debug)]
pub struct InterceptorFn {
    x_token: Option<String>,
}

impl InterceptorFn {
    /// The credential this interceptor attaches, if any.
    pub closed spec fn token(&self) -> Option<Seq<char>> {
        match &self.x_token {
            Some(t) => Some(t@),
            None => None,
        }
    }

    /// A configured credential is non-empty printable ASCII.
    #[verifier::type_invariant]
    pub closed spec fn wf(&self) -> bool {
        match &self.x_token {
            Some(t) => t@.len() > 0 && is_credential_text(t@),
            None => true,
        }
    }

    /// Validates the credential once: absent is fine; present, it must be
    /// printable ASCII and must not be empty.
    pub fn new(x_token: Option<&str>) -> (r: Result<InterceptorFn, GeyserGrpcClientError>)
        ensures
            match x_token {
                None => r matches Ok(i) && i.token() == None::<Seq<char>>,
                Some(s) => if !is_credential_text(s@) {
                    r matches Err(GeyserGrpcClientError::MetadataValueError(e)) && first_bad_byte(
                        s@,
                        e,
                    )
                } else if s@.len() == 0 {
                    r matches Err(GeyserGrpcClientError::InvalidXTokenLength(n)) && n == 0
                } else {
                    r matches Ok(i) && i.token() == Some(s@)
                },
            },
    {
        match x_token {
            None => Ok(InterceptorFn { x_token: None }),
            Some(s) => {
                match check_credential(s) {
                    Err(e) => Err(GeyserGrpcClientError::MetadataValueError(e)),
                    Ok(()) => {
                        if s.is_empty() {
                            Err(GeyserGrpcClientError::InvalidXTokenLength(0))
                        } else {
                            let t = s.to_owned();
                            proof {
                                assert(t@ == s@);
                            }
                            Ok(InterceptorFn { x_token: Some(t) })
                        }
                    },
                }
            },
        }
    }

    /// Sets the credential as the only value under the credential key and
    /// leaves the rest of the metadata as it was; without a credential the
    /// call passes unchanged. Never fails.
    pub fn attach(&self, request: tonic::Request<()>) -> (r: Result<tonic::Request<()>, tonic::Status>)
        ensures
            r matches Ok(q) && request_metadata(q) == intercepted_metadata(
                self.token(),
                request_metadata(request),
            ),
            self.token() is None ==> r == Ok::<tonic::Request<()>, tonic::Status>(request),
    {
        proof {
            use_type_invariant(self);
        }
        let mut request = request;
        match &self.x_token {
            Some(t) => {
                proof {
                    reveal_strlit("x-token");
                    assert(is_plain_metadata_key(X_TOKEN_KEY@));
                    assert forall|i: int| 0 <= i < encode_utf8(t@).len() implies #[trigger] is_metadata_byte(
                        encode_utf8(t@)[i],
                    ) by {
                        assert(is_printable_byte(encode_utf8(t@)[i]));
                    }
                }
                let _ = insert_metadata(&mut request, X_TOKEN_KEY, t.as_str());
                Ok(request)
            },
            None => Ok(request),
        }
    }
}

impl Clone for InterceptorFn {
    /// The copy attaches the same credential.
    fn clone(&self) -> (r: InterceptorFn)
        ensures
            r.token() == self.token(),
    {
        proof {
            use_type_invariant(self);
        }
        InterceptorFn { x_token: self.x_token.clone() }
    }
}

impl tonic::service::Interceptor for InterceptorFn {
    /// Never fails and never changes the interceptor; the request's metadata
    /// ends up as `intercepted_metadata` says.
    fn call(&mut self, request: tonic::Request<()>) -> (r: Result<tonic::Request<()>, tonic::Status>)
        ensures
            final(self).token() == old(self).token(),
            r matches Ok(q) && request_metadata(q) == intercepted_metadata(
                old(self).token(),
                request_metadata(request),
            ),
            old(self).token() is None ==> r == Ok::<tonic::Request<()>, tonic::Status>(request),
    {
        self.attach(request)
    }
}

/// Intercepting an already intercepted call changes nothing more: the
/// credential key still holds exactly the one credential.
pub proof fn interception_is_idempotent(
    token: Option<Seq<char>>,
    m: Map<Seq<char>, Seq<Seq<u8>>>,
)
    ensures
        intercepted_metadata(token, intercepted_metadata(token, m)) == intercepted_metadata(
            token,
            m,
        ),
{
    if let Some(t) = token {
        assert(intercepted_metadata(token, intercepted_metadata(token, m)) =~= intercepted_metadata(
            token,
            m,
        ));
    }
}

/// Two interceptors with the same credential (a copy and its original) give
/// calls with the same metadata the same metadata.
pub proof fn copies_intercept_alike(
    a: InterceptorFn,
    b: InterceptorFn,
    m: Map<Seq<char>, Seq<Seq<u8>>>,
)
    requires
        a.token() == b.token(),
    ensures
        intercepted_metadata(a.token(), m) == intercepted_metadata(b.token(), m),
{
}

} // verus!
