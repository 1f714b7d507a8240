//! Session authentication: the signed, time-bounded login request of a
//! client, and the checks that a server makes, in their order, before it
//! issues a session.

use vstd::bytes::{
    lemma_auto_spec_u32_to_from_le_bytes, lemma_auto_spec_u64_to_from_le_bytes,
    spec_u32_from_le_bytes, spec_u32_to_le_bytes, spec_u64_from_le_bytes, spec_u64_to_le_bytes,
    u32_to_le_bytes, u64_to_le_bytes,
};
use vstd::prelude::*;
use vstd::slice::slice_to_vec;

use crate::algorithms::{
    lemma_parse_inverts_canonical, spec_canonical, spec_is_supported, spec_parse, AlgorithmNames,
    CryptoAlgorithms,
};
use crate::backend::StbBackend;
use crate::bytes::{extend_bytes, spec_bytes};
use crate::errors::ServerError;
use crate::keys::{PrivateKey, PublicKey};
use crate::laws::{
    lemma_verify_accepts_sign, spec_accepts_own_signatures, spec_hashes_as_function,
};
use crate::limits::Limits;
use crate::registry::{sign, spec_sign, spec_verify, verify};

verus! {

/// The parameters of a requested session.
///
/// `current_timestamp` is the client's time in seconds since the Unix epoch.
/// The request is in its window while the server's time lies between
/// `current_timestamp - authorize_before_seconds` and
/// `current_timestamp + authorize_after_seconds`, both included. A session
/// that is granted lasts `session_validity_seconds` from the server's time.
#[derive(Clone, Copy, Debug, PartialEq, Eq, Structural)]
pub struct SessionParams {
    pub current_timestamp: u64,
    pub authorize_before_seconds: u32,
    pub authorize_after_seconds: u32,
    pub session_validity_seconds: u32,
}

/// The number of bytes of serialized session parameters.
pub const SESSION_PARAMS_LEN: usize = 20;

impl SessionParams {
    /// The bytes that the client signs and the server checks: the four
    /// fields in their order, each in little-endian byte order, 8, 4, 4 and 4
    /// bytes wide.
    pub open spec fn spec_bytes(self) -> Seq<u8> {
        spec_u64_to_le_bytes(self.current_timestamp) + spec_u32_to_le_bytes(
            self.authorize_before_seconds,
        ) + spec_u32_to_le_bytes(self.authorize_after_seconds) + spec_u32_to_le_bytes(
            self.session_validity_seconds,
        )
    }

    /// The bytes that the client signs and the server checks.
    pub fn to_boxed_slice(&self) -> (r: Vec<u8>)
        ensures
            r@ == self.spec_bytes(),
            r@.len() == SESSION_PARAMS_LEN,
    {
        let mut out: Vec<u8> = u64_to_le_bytes(self.current_timestamp);
        extend_bytes(&mut out, u32_to_le_bytes(self.authorize_before_seconds).as_slice());
        extend_bytes(&mut out, u32_to_le_bytes(self.authorize_after_seconds).as_slice());
        extend_bytes(&mut out, u32_to_le_bytes(self.session_validity_seconds).as_slice());
        out
    }

    /// The parameters that a client sends at the time `now`: the widest
    /// window and the longest session that the limits allow.
    pub fn at(now: u64, limits: &Limits) -> (r: SessionParams)
        ensures
            r == (SessionParams {
                current_timestamp: now,
                authorize_before_seconds: limits.max_session_before_period,
                authorize_after_seconds: limits.max_session_after_period,
                session_validity_seconds: limits.max_session_validity_period,
            }),
    {
        SessionParams {
            current_timestamp: now,
            authorize_before_seconds: limits.max_session_before_period,
            authorize_after_seconds: limits.max_session_after_period,
            session_validity_seconds: limits.max_session_validity_period,
        }
    }
}

/// Whether the request declares a window or a validity beyond the limits.
pub open spec fn spec_exceeds_limits(params: SessionParams, limits: Limits) -> bool {
    ||| params.authorize_before_seconds > limits.max_session_before_period
    ||| params.authorize_after_seconds > limits.max_session_after_period
    ||| params.session_validity_seconds > limits.max_session_validity_period
}

/// What the checks that need no key say of a request at the server's time
/// `now`, in their order: the limits, the end of the session, the window.
/// Where all of them pass, the result is the time at which the session ends.
pub open spec fn spec_session_window(params: SessionParams, limits: Limits, now: u64) -> Result<
    u64,
    ServerError,
> {
    if spec_exceeds_limits(params, limits) {
        Err(ServerError::LimitExceeded)
    } else if now + params.session_validity_seconds > u64::MAX {
        Err(ServerError::LimitExceeded)
    } else if now < params.current_timestamp - params.authorize_before_seconds {
        Err(ServerError::SignatureEarly)
    } else if now > params.current_timestamp + params.authorize_after_seconds {
        Err(ServerError::SignatureExpired)
    } else {
        Ok((now + params.session_validity_seconds) as u64)
    }
}

/// Checks a request against the limits and against the server's time `now`.
/// Gives the time at which the session would end.
pub fn check_session_window(params: &SessionParams, limits: &Limits, now: u64) -> (r: Result<
    u64,
    ServerError,
>)
    ensures
        r == spec_session_window(*params, *limits, now),
{
    if params.authorize_before_seconds > limits.max_session_before_period
        || params.authorize_after_seconds > limits.max_session_after_period
        || params.session_validity_seconds > limits.max_session_validity_period {
        return Err(ServerError::LimitExceeded);
    }
    let expiration: u64 = match now.checked_add(params.session_validity_seconds as u64) {
        Some(end) => end,
        None => {
            return Err(ServerError::LimitExceeded);
        },
    };
    let earliest: u64 = if params.current_timestamp >= params.authorize_before_seconds as u64 {
        params.current_timestamp - params.authorize_before_seconds as u64
    } else {
        0
    };
    if now < earliest {
        return Err(ServerError::SignatureEarly);
    }
    match params.current_timestamp.checked_add(params.authorize_after_seconds as u64) {
        Some(latest) => {
            if now > latest {
                return Err(ServerError::SignatureExpired);
            }
        },
        None => {},
    }
    Ok(expiration)
}

/// What a checked signature means for a request that is in its window:
/// the session until `expiration` where the signature is the key's,
/// `InvalidSignature` where it is not, and
/// `UnsupportedCryptographicAlgorithm` where the registry cannot tell.
pub open spec fn spec_signature_outcome(verified: Option<bool>, expiration: u64) -> Result<
    u64,
    ServerError,
> {
    match verified {
        Some(true) => Ok(expiration),
        Some(false) => Err(ServerError::InvalidSignature),
        None => Err(ServerError::UnsupportedCryptographicAlgorithm),
    }
}

/// What a checked signature means for a request that is in its window.
pub fn signature_outcome(verified: Option<bool>, expiration: u64) -> (r: Result<u64, ServerError>)
    ensures
        r == spec_signature_outcome(verified, expiration),
{
    match verified {
        Some(true) => Ok(expiration),
        Some(false) => Err(ServerError::InvalidSignature),
        None => Err(ServerError::UnsupportedCryptographicAlgorithm),
    }
}

/// Whether `out` may come of checking a login request at the server's time
/// `now`.
///
/// The checks that need no key come first, so that a request outside its
/// window is refused for that, whatever its signature is. Then the name of
/// the algorithm set is read as a canonical string, and the signature is
/// checked on the serialized parameters against the claimed public key.
pub open spec fn spec_login<B: StbBackend>(
    backend: &B,
    login_algorithm: Seq<char>,
    public_key: Seq<u8>,
    params: SessionParams,
    signature: Seq<u8>,
    limits: Limits,
    now: u64,
    out: Result<u64, ServerError>,
) -> bool {
    let window = spec_session_window(params, limits, now);
    if window is Err {
        out is Err && out->Err_0 == window->Err_0
    } else if spec_parse(login_algorithm) is None {
        out == Err::<u64, ServerError>(ServerError::UnsupportedCryptographicAlgorithm)
    } else {
        exists|verified: Option<bool>| #[trigger]
            spec_verify(
                backend,
                spec_parse(login_algorithm)->0,
                public_key,
                params.spec_bytes(),
                signature,
                verified,
            ) && out == spec_signature_outcome(verified, window->Ok_0)
    }
}

/// Checks a login request at the server's time `now`: the limits and the
/// window first, then the signature. Gives the time until which the session
/// is to last. Whether the claimed identity owns the key is for the caller to
/// look up afterwards, see [`ownership_outcome`].
pub fn login_account<B: StbBackend>(
    backend: &B,
    login_algorithm: &str,
    public_key: &[u8],
    session_params: &SessionParams,
    signature: &[u8],
    limits: &Limits,
    now: u64,
) -> (r: Result<u64, ServerError>)
    ensures
        spec_login(
            backend,
            login_algorithm@,
            public_key@,
            *session_params,
            signature@,
            *limits,
            now,
            r,
        ),
        spec_session_window(*session_params, *limits, now) matches Err(e) ==> r == Err::<
            u64,
            ServerError,
        >(e),
{
    let expiration: u64 = match check_session_window(session_params, limits, now) {
        Ok(end) => end,
        Err(e) => {
            return Err(e);
        },
    };
    let algorithms: CryptoAlgorithms = match CryptoAlgorithms::parse(login_algorithm) {
        Some(algorithms) => algorithms,
        None => {
            return Err(ServerError::UnsupportedCryptographicAlgorithm);
        },
    };
    let data: Vec<u8> = session_params.to_boxed_slice();
    let key: PublicKey = PublicKey { pk: slice_to_vec(public_key) };
    let verified: Option<bool> = verify(backend, &algorithms, key, data.as_slice(), signature);
    let r: Result<u64, ServerError> = signature_outcome(verified, expiration);
    proof {
        let window = spec_session_window(*session_params, *limits, now);
        assert(spec_verify(
            backend,
            spec_parse(login_algorithm@)->0,
            public_key@,
            session_params.spec_bytes(),
            signature@,
            verified,
        ) && r == spec_signature_outcome(verified, window->Ok_0));
    }
    r
}

/// What the lookup of the claimed key means for a request whose signature
/// was checked: `owned` is whether the claimed identity owns the key, or
/// `None` where the lookup failed.
pub open spec fn spec_ownership_outcome(owned: Option<bool>) -> Result<(), ServerError> {
    match owned {
        Some(true) => Ok(()),
        Some(false) => Err(ServerError::AccountNotFound),
        None => Err(ServerError::InternalDatabaseError),
    }
}

/// What the lookup of the claimed key means: the last check before a session
/// is issued.
pub fn ownership_outcome(owned: Option<bool>) -> (r: Result<(), ServerError>)
    ensures
        r == spec_ownership_outcome(owned),
{
    match owned {
        Some(true) => Ok(()),
        Some(false) => Err(ServerError::AccountNotFound),
        None => Err(ServerError::InternalDatabaseError),
    }
}

/// Whether `out` may come of making a login request at the client's time
/// `now`: the parameters for that time, with a signature that the registry
/// may give to their bytes.
pub open spec fn spec_request_session<B: StbBackend>(
    backend: &B,
    names: AlgorithmNames,
    private_key: Seq<u8>,
    public_key: Seq<u8>,
    limits: Limits,
    now: u64,
    out: Option<(SessionParams, Seq<u8>)>,
) -> bool {
    let params = SessionParams {
        current_timestamp: now,
        authorize_before_seconds: limits.max_session_before_period,
        authorize_after_seconds: limits.max_session_after_period,
        session_validity_seconds: limits.max_session_validity_period,
    };
    match out {
        Some((sent, signature)) => sent == params && spec_sign(
            backend,
            names,
            private_key,
            public_key,
            params.spec_bytes(),
            Some(signature),
        ),
        None => spec_sign(
            backend,
            names,
            private_key,
            public_key,
            params.spec_bytes(),
            None::<Seq<u8>>,
        ),
    }
}

/// Makes a login request at the client's time `now`: the parameters and the
/// signature of the key pair on their bytes.
pub fn request_session<B: StbBackend>(
    backend: &B,
    algorithms: &CryptoAlgorithms,
    private_key: PrivateKey,
    public_key: PublicKey,
    limits: &Limits,
    now: u64,
) -> (r: Option<(SessionParams, Vec<u8>)>)
    ensures
        spec_request_session(
            backend,
            algorithms@,
            private_key@,
            public_key@,
            *limits,
            now,
            match r {
                Some((params, signature)) => Some((params, signature@)),
                None => None,
            },
        ),
{
    let params: SessionParams = SessionParams::at(now, limits);
    let data: Vec<u8> = params.to_boxed_slice();
    match sign(backend, algorithms, private_key, public_key, data.as_slice()) {
        Some(signature) => Some((params, signature)),
        None => None,
    }
}

/// The checks come in a fixed order: a request beyond the limits is refused
/// for that whenever it comes; within the limits, a request that is early is
/// refused as early and one that is late as expired, whatever its signature
/// is and whatever the registry would say of it.
pub proof fn lemma_window_comes_first<B: StbBackend>(
    backend: &B,
    login_algorithm: Seq<char>,
    public_key: Seq<u8>,
    params: SessionParams,
    signature: Seq<u8>,
    limits: Limits,
    now: u64,
    out: Result<u64, ServerError>,
)
    requires
        spec_login(backend, login_algorithm, public_key, params, signature, limits, now, out),
    ensures
        spec_exceeds_limits(params, limits) ==> out == Err::<u64, ServerError>(
            ServerError::LimitExceeded,
        ),
        !spec_exceeds_limits(params, limits) && now + params.session_validity_seconds <= u64::MAX
            && now < params.current_timestamp - params.authorize_before_seconds ==> out == Err::<
            u64,
            ServerError,
        >(ServerError::SignatureEarly),
        !spec_exceeds_limits(params, limits) && now + params.session_validity_seconds <= u64::MAX
            && now > params.current_timestamp + params.authorize_after_seconds ==> out == Err::<
            u64,
            ServerError,
        >(ServerError::SignatureExpired),
        out matches Ok(expiration) ==> {
            &&& expiration == now + params.session_validity_seconds
            &&& params.current_timestamp - params.authorize_before_seconds <= now
                <= params.current_timestamp + params.authorize_after_seconds
            &&& !spec_exceeds_limits(params, limits)
        },
        out == Err::<u64, ServerError>(ServerError::InvalidSignature) || out == Err::<
            u64,
            ServerError,
        >(ServerError::UnsupportedCryptographicAlgorithm) ==> spec_session_window(
            params,
            limits,
            now,
        ) is Ok,
{
}

/// The serialized parameters are 20 bytes that stand for one request only:
/// requests with the same bytes are the same request, so that a signature on
/// the bytes of one request is a signature on no other.
pub proof fn lemma_session_bytes_are_one_to_one(first: SessionParams, second: SessionParams)
    ensures
        first.spec_bytes().len() == SESSION_PARAMS_LEN,
        first.spec_bytes() == second.spec_bytes() ==> first == second,
{
    lemma_auto_spec_u32_to_from_le_bytes();
    lemma_auto_spec_u64_to_from_le_bytes();
    let a = first.spec_bytes();
    let b = second.spec_bytes();
    assert(a.subrange(0, 8) == spec_u64_to_le_bytes(first.current_timestamp));
    assert(a.subrange(8, 12) == spec_u32_to_le_bytes(first.authorize_before_seconds));
    assert(a.subrange(12, 16) == spec_u32_to_le_bytes(first.authorize_after_seconds));
    assert(a.subrange(16, 20) == spec_u32_to_le_bytes(first.session_validity_seconds));
    assert(b.subrange(0, 8) == spec_u64_to_le_bytes(second.current_timestamp));
    assert(b.subrange(8, 12) == spec_u32_to_le_bytes(second.authorize_before_seconds));
    assert(b.subrange(12, 16) == spec_u32_to_le_bytes(second.authorize_after_seconds));
    assert(b.subrange(16, 20) == spec_u32_to_le_bytes(second.session_validity_seconds));
    if a == b {
        assert(first.current_timestamp == spec_u64_from_le_bytes(a.subrange(0, 8)));
        assert(first.authorize_before_seconds == spec_u32_from_le_bytes(a.subrange(8, 12)));
        assert(first.authorize_after_seconds == spec_u32_from_le_bytes(a.subrange(12, 16)));
        assert(first.session_validity_seconds == spec_u32_from_le_bytes(a.subrange(16, 20)));
    }
}

/// A request that a client made is accepted in its window. With a backend
/// that hashes as a function and accepts its own signatures, a request made
/// at the client's time for an offered descriptor passes every check at any
/// server time that lies in the window of the request and leaves room for
/// the session, and the session lasts the requested time from then.
pub proof fn lemma_made_request_is_accepted<B: StbBackend>(
    backend: &B,
    names: AlgorithmNames,
    private_key: Seq<u8>,
    public_key: Seq<u8>,
    limits: Limits,
    client_time: u64,
    server_time: u64,
    params: SessionParams,
    signature: Seq<u8>,
    out: Result<u64, ServerError>,
)
    requires
        spec_hashes_as_function(backend),
        spec_accepts_own_signatures(backend),
        spec_is_supported(names),
        spec_request_session(
            backend,
            names,
            private_key,
            public_key,
            limits,
            client_time,
            Some((params, signature)),
        ),
        client_time - limits.max_session_before_period <= server_time <= client_time
            + limits.max_session_after_period,
        server_time + limits.max_session_validity_period <= u64::MAX,
        spec_login(
            backend,
            spec_canonical(names),
            public_key,
            params,
            signature,
            limits,
            server_time,
            out,
        ),
    ensures
        out == Ok::<u64, ServerError>((server_time + limits.max_session_validity_period) as u64),
{
    lemma_parse_inverts_canonical(names);
    let verified = choose|verified: Option<bool>| #[trigger]
        spec_verify(backend, names, public_key, params.spec_bytes(), signature, verified) && out
            == spec_signature_outcome(
            verified,
            (server_time + limits.max_session_validity_period) as u64,
        );
    lemma_verify_accepts_sign(
        backend,
        names,
        private_key,
        public_key,
        params.spec_bytes(),
        signature,
        verified,
    );
}

} // verus!
