//! Layer 1: transport session key derivation.
//!
//! Hybrid key exchange: X25519 and ML-KEM-768 shared secrets are combined
//! with HKDF-SHA256, so breaking either algorithm alone does not expose
//! the session. The client generates its ephemeral keys (`generate`), the
//! server answers (`respond`) and derives the keys at once, and the client
//! derives the same keys from the server's answer
//! (`derive_session_keys`).
//!
//! HKDF's `info` is the handshake context (both X25519 public keys, the
//! ML-KEM encapsulation key and the ciphertext) followed by a per-direction
//! label, so a derived key depends on the exact key material behind it.
use crate::crypto::primitives::{
    hkdf_sha256, mlkem768_decapsulate, mlkem768_ek_from_seed, mlkem768_encapsulate, os_random_32,
    spec_hkdf_sha256, spec_mlkem768_decapsulate, spec_mlkem768_ek, spec_mlkem768_encapsulate, spec_mlkem768_ek_valid,
    spec_x25519_public, spec_x25519_shared, system_random, wipe_key, wipe_vec, x25519_public, x25519_shared,
};
use crate::error::ProtocolError;
use vstd::prelude::*;

verus! {

/// ML-KEM-768 encapsulation key size in bytes.
pub const ML_KEM_768_EK_SIZE: usize = 1184usize;

/// ML-KEM-768 ciphertext size in bytes.
pub const ML_KEM_768_CT_SIZE: usize = 1088usize;

/// HKDF label of the client-to-server key, `"chatix-c2s-v1"`.
pub const C2S_LABEL: [u8; 13] = [99u8, 104u8, 97u8, 116u8, 105u8, 120u8, 45u8, 99u8, 50u8, 115u8, 45u8, 118u8, 49u8];

/// HKDF label of the server-to-client key, `"chatix-s2c-v1"`.
pub const S2C_LABEL: [u8; 13] = [99u8, 104u8, 97u8, 116u8, 105u8, 120u8, 45u8, 115u8, 50u8, 99u8, 45u8, 118u8, 49u8];

/// The handshake context bound into both session keys.
pub open spec fn spec_handshake_context(
    client_x25519_public: Seq<u8>,
    server_x25519_public: Seq<u8>,
    ml_kem_ek: Seq<u8>,
    ml_kem_ciphertext: Seq<u8>,
) -> Seq<u8> {
    client_x25519_public + server_x25519_public + ml_kem_ek + ml_kem_ciphertext
}

/// The two session keys (client-to-server, server-to-client) derived from
/// the two shared secrets and the handshake context.
pub open spec fn spec_session_keys(x25519_shared: Seq<u8>, kem_shared: Seq<u8>, context: Seq<u8>) -> (
    Seq<u8>,
    Seq<u8>,
) {
    (
        spec_hkdf_sha256(x25519_shared + kem_shared, context + C2S_LABEL@),
        spec_hkdf_sha256(x25519_shared + kem_shared, context + S2C_LABEL@),
    )
}

/// Symmetric keys of an established session. The client encrypts with
/// `client_to_server` and the server decrypts with it; `server_to_client`
/// is the reverse. Distinct labels keep the two directions apart.
pub struct SessionKeys {
    pub client_to_server: [u8; 32],
    pub server_to_client: [u8; 32],
}

impl SessionKeys {
    /// Overwrites both keys with zeros.
    pub fn zeroize(&mut self)
        ensures
            final(self).client_to_server@ == Seq::new(32, |_i: int| 0u8),
            final(self).server_to_client@ == Seq::new(32, |_i: int| 0u8),
    {
        wipe_key(&mut self.client_to_server);
        wipe_key(&mut self.server_to_client);
    }

    /// The two keys as byte sequences.
    pub open spec fn spec_pair(&self) -> (Seq<u8>, Seq<u8>) {
        (self.client_to_server@, self.server_to_client@)
    }
}

fn handshake_context(
    client_x25519_public: &[u8; 32],
    server_x25519_public: &[u8; 32],
    ml_kem_ek: &[u8; 1184],
    ml_kem_ciphertext: &[u8; 1088],
) -> (c: Vec<u8>)
    ensures
        c@ == spec_handshake_context(
            client_x25519_public@,
            server_x25519_public@,
            ml_kem_ek@,
            ml_kem_ciphertext@,
        ),
{
    let mut c: Vec<u8> = Vec::new();
    c.extend_from_slice(client_x25519_public.as_slice());
    c.extend_from_slice(server_x25519_public.as_slice());
    c.extend_from_slice(ml_kem_ek.as_slice());
    c.extend_from_slice(ml_kem_ciphertext.as_slice());
    assert(c@ =~= spec_handshake_context(
        client_x25519_public@,
        server_x25519_public@,
        ml_kem_ek@,
        ml_kem_ciphertext@,
    ));
    c
}

fn with_label(context: &[u8], label: &[u8; 13]) -> (info: Vec<u8>)
    ensures
        info@ == context@ + label@,
{
    let mut info: Vec<u8> = Vec::new();
    info.extend_from_slice(context);
    info.extend_from_slice(label.as_slice());
    info
}

/// Derives both session keys from the two shared secrets and the context.
fn derive_keys(x25519_shared: &[u8; 32], kem_shared: &[u8; 32], context: &[u8]) -> (r: Result<
    SessionKeys,
    ProtocolError,
>)
    ensures
        r matches Ok(k) && k.spec_pair() == spec_session_keys(
            x25519_shared@,
            kem_shared@,
            context@,
        ),
{
    let mut ikm: Vec<u8> = Vec::with_capacity(64);
    ikm.extend_from_slice(x25519_shared.as_slice());
    ikm.extend_from_slice(kem_shared.as_slice());
    assert(ikm@ =~= x25519_shared@ + kem_shared@);
    let c2s_info = with_label(context, &C2S_LABEL);
    let s2c_info = with_label(context, &S2C_LABEL);
    let c2s = match hkdf_sha256(ikm.as_slice(), c2s_info.as_slice()) {
        Some(k) => k,
        None => {
            return Err(ProtocolError::CryptoError);
        },
    };
    let s2c = match hkdf_sha256(ikm.as_slice(), s2c_info.as_slice()) {
        Some(k) => k,
        None => {
            return Err(ProtocolError::CryptoError);
        },
    };
    wipe_vec(&mut ikm);
    Ok(SessionKeys { client_to_server: c2s, server_to_client: s2c })
}

/// Client-side handshake state: the ephemeral secrets, held until the
/// server answers, and the public material for the client hello.
pub struct ClientHandshakeState {
    x25519_secret: [u8; 32],
    ml_kem_seed: [u8; 64],
    /// Ephemeral X25519 public key, for `ClientHelloPayload`.
    pub x25519_public: [u8; 32],
    /// ML-KEM-768 encapsulation key, for `ClientHelloPayload`.
    pub ml_kem_ek: [u8; 1184],
}

impl ClientHandshakeState {
    /// The ephemeral X25519 secret.
    pub closed spec fn spec_x25519_secret(&self) -> Seq<u8> {
        self.x25519_secret@
    }

    /// The seed of the ML-KEM decapsulation key.
    pub closed spec fn spec_ml_kem_seed(&self) -> Seq<u8> {
        self.ml_kem_seed@
    }

    /// The X25519 public key field.
    pub closed spec fn spec_x25519_public(&self) -> Seq<u8> {
        self.x25519_public@
    }

    /// The ML-KEM encapsulation key field.
    pub closed spec fn spec_ml_kem_ek(&self) -> Seq<u8> {
        self.ml_kem_ek@
    }

    /// The public fields belong to the secret ones.
    pub closed spec fn spec_wf(&self) -> bool {
        &&& self.spec_x25519_secret().len() == 32
        &&& self.x25519_public@ == spec_x25519_public(self.spec_x25519_secret())
        &&& self.ml_kem_ek@ == spec_mlkem768_ek(self.spec_ml_kem_seed())
    }

    /// The session keys the client derives from the server's X25519 key
    /// and ML-KEM ciphertext.
    pub closed spec fn spec_derived_keys(&self, server_x25519_public: Seq<u8>, ml_kem_ciphertext: Seq<u8>) -> (
        Seq<u8>,
        Seq<u8>,
    ) {
        spec_session_keys(
            spec_x25519_shared(self.spec_x25519_secret(), server_x25519_public),
            spec_mlkem768_decapsulate(self.spec_ml_kem_seed(), ml_kem_ciphertext),
            spec_handshake_context(
                self.x25519_public@,
                server_x25519_public,
                self.ml_kem_ek@,
                ml_kem_ciphertext,
            ),
        )
    }

    /// The handshake state of the given ephemeral X25519 secret and
    /// ML-KEM-768 seed, with their public keys.
    pub fn from_seeds(x25519_secret: [u8; 32], ml_kem_seed: [u8; 64]) -> (s: Self)
        ensures
            s.spec_wf(),
            s.spec_x25519_secret() == x25519_secret@,
            s.spec_ml_kem_seed() == ml_kem_seed@,
    {
        let x25519_public = x25519_public(&x25519_secret);
        let ml_kem_ek = mlkem768_ek_from_seed(&ml_kem_seed);
        Self { x25519_secret, ml_kem_seed, x25519_public, ml_kem_ek }
    }

    /// Fresh ephemeral X25519 and ML-KEM-768 keys; fails only when a random
    /// source fails.
    pub fn generate() -> (r: Result<Self, ProtocolError>)
        ensures
            match r {
                Ok(s) => s.spec_wf(),
                Err(e) => e == ProtocolError::CryptoError,
            },
    {
        let x25519_secret = match os_random_32() {
            Some(s) => s,
            None => {
                return Err(ProtocolError::CryptoError);
            },
        };
        let ml_kem_seed: [u8; 64] = match system_random::<64>() {
            Some(s) => s,
            None => {
                return Err(ProtocolError::CryptoError);
            },
        };
        Ok(Self::from_seeds(x25519_secret, ml_kem_seed))
    }

    /// Completes the handshake with the server's X25519 public key and
    /// ML-KEM ciphertext from the server hello.
    pub fn derive_session_keys(self, server_x25519_pk: [u8; 32], ml_kem_ciphertext: &[u8; 1088]) -> (r:
        Result<SessionKeys, ProtocolError>)
        ensures
            r matches Ok(k) && k.spec_pair() == self.spec_derived_keys(
                server_x25519_pk@,
                ml_kem_ciphertext@,
            ),
    {
        let x25519_shared = x25519_shared(&self.x25519_secret, &server_x25519_pk);
        let kem_shared = mlkem768_decapsulate(&self.ml_kem_seed, ml_kem_ciphertext);
        let context = handshake_context(
            &self.x25519_public,
            &server_x25519_pk,
            &self.ml_kem_ek,
            ml_kem_ciphertext,
        );
        derive_keys(&x25519_shared, &kem_shared, context.as_slice())
    }
}

/// Server-side handshake output: the material for the server hello and
/// the session keys, ready at once.
pub struct ServerHandshakeState {
    /// Ephemeral X25519 public key, for `ServerHelloPayload`.
    pub x25519_public: [u8; 32],
    /// ML-KEM-768 ciphertext, for `ServerHelloPayload`.
    pub ml_kem_ciphertext: [u8; 1088],
    /// The session keys.
    pub session_keys: SessionKeys,
    ephemeral_secret: Ghost<Seq<u8>>,
    kem_shared_secret: Ghost<Seq<u8>>,
}

impl ServerHandshakeState {
    /// The server's ephemeral X25519 secret (discarded after `respond`).
    pub closed spec fn spec_ephemeral_secret(&self) -> Seq<u8> {
        self.ephemeral_secret@
    }

    /// The ML-KEM shared key the server encapsulated.
    pub closed spec fn spec_kem_shared_secret(&self) -> Seq<u8> {
        self.kem_shared_secret@
    }

    /// The X25519 public key field.
    pub closed spec fn spec_x25519_public(&self) -> Seq<u8> {
        self.x25519_public@
    }

    /// The ML-KEM ciphertext field.
    pub closed spec fn spec_ml_kem_ciphertext(&self) -> Seq<u8> {
        self.ml_kem_ciphertext@
    }

    /// The session keys field.
    pub closed spec fn spec_session_keys(&self) -> (Seq<u8>, Seq<u8>) {
        self.session_keys.spec_pair()
    }

    /// The ML-KEM ciphertext and shared key are an encapsulation to the
    /// encapsulation key `ek`, for some encapsulation randomness.
    pub open spec fn spec_encapsulated_to(&self, ek: Seq<u8>) -> bool {
        exists|kem_randomness: Seq<u8>|
            #[trigger] spec_mlkem768_encapsulate(ek, kem_randomness) == (
                self.spec_ml_kem_ciphertext(),
                self.spec_kem_shared_secret(),
            )
    }

    /// This state answers a client hello with the given keys: the public
    /// key belongs to the ephemeral secret, any client secret combined with
    /// it agrees with the server's side, and the session keys come from the
    /// two shared secrets and this handshake's context.
    pub closed spec fn spec_answers(&self, client_x25519_pk: Seq<u8>, client_ml_kem_ek: Seq<u8>) -> bool {
        &&& self.spec_ephemeral_secret().len() == 32
        &&& self.x25519_public@ == spec_x25519_public(self.spec_ephemeral_secret())
        &&& forall|other: Seq<u8>|
            other.len() == 32 ==> #[trigger] spec_x25519_shared(other, self.x25519_public@)
                == spec_x25519_shared(self.spec_ephemeral_secret(), spec_x25519_public(other))
        &&& self.session_keys.spec_pair() == spec_session_keys(
            spec_x25519_shared(self.spec_ephemeral_secret(), client_x25519_pk),
            self.spec_kem_shared_secret(),
            spec_handshake_context(
                client_x25519_pk,
                self.x25519_public@,
                client_ml_kem_ek,
                self.ml_kem_ciphertext@,
            ),
        )
    }

    /// Answers a client hello with the given ephemeral X25519 secret and
    /// ML-KEM encapsulation randomness: the server's public key, the
    /// encapsulation to the client's key, and the session keys. Fails
    /// exactly when the client's encapsulation key is invalid.
    pub fn respond_with(
        client_x25519_pk: [u8; 32],
        client_ml_kem_ek: &[u8; 1184],
        server_secret: [u8; 32],
        kem_randomness: [u8; 32],
    ) -> (r: Result<Self, ProtocolError>)
        ensures
            r is Ok <==> spec_mlkem768_ek_valid(client_ml_kem_ek@),
            match r {
                Ok(s) => {
                    &&& s.spec_answers(client_x25519_pk@, client_ml_kem_ek@)
                    &&& s.spec_ephemeral_secret() == server_secret@
                    &&& (s.spec_ml_kem_ciphertext(), s.spec_kem_shared_secret())
                        == spec_mlkem768_encapsulate(client_ml_kem_ek@, kem_randomness@)
                },
                Err(e) => e == ProtocolError::CryptoError,
            },
    {
        let server_public = x25519_public(&server_secret);
        let x25519_shared = x25519_shared(&server_secret, &client_x25519_pk);
        let (ml_kem_ciphertext, kem_shared) = match mlkem768_encapsulate(
            client_ml_kem_ek,
            &kem_randomness,
        ) {
            Some(x) => x,
            None => {
                return Err(ProtocolError::CryptoError);
            },
        };
        let context = handshake_context(
            &client_x25519_pk,
            &server_public,
            client_ml_kem_ek,
            &ml_kem_ciphertext,
        );
        let session_keys = match derive_keys(&x25519_shared, &kem_shared, context.as_slice()) {
            Ok(k) => k,
            Err(e) => {
                return Err(e);
            },
        };
        Ok(Self {
            x25519_public: server_public,
            ml_kem_ciphertext,
            session_keys,
            ephemeral_secret: Ghost(server_secret@),
            kem_shared_secret: Ghost(kem_shared@),
        })
    }

    /// Answers a client hello: a fresh X25519 key, an ML-KEM encapsulation
    /// to the client's key, and the session keys. Fails when the client's
    /// encapsulation key is invalid, or when a random source fails.
    pub fn respond(client_x25519_pk: [u8; 32], client_ml_kem_ek: &[u8; 1184]) -> (r: Result<
        Self,
        ProtocolError,
    >)
        ensures
            match r {
                Ok(s) => s.spec_answers(client_x25519_pk@, client_ml_kem_ek@),
                Err(e) => e == ProtocolError::CryptoError,
            },
            r matches Ok(s) ==> s.spec_encapsulated_to(client_ml_kem_ek@),
            !spec_mlkem768_ek_valid(client_ml_kem_ek@) ==> r is Err,
    {
        let server_secret = match os_random_32() {
            Some(s) => s,
            None => {
                return Err(ProtocolError::CryptoError);
            },
        };
        let kem_randomness: [u8; 32] = match system_random::<32>() {
            Some(m) => m,
            None => {
                return Err(ProtocolError::CryptoError);
            },
        };
        let r = Self::respond_with(client_x25519_pk, client_ml_kem_ek, server_secret, kem_randomness);
        proof {
            if r is Ok {
                let s = r->Ok_0;
                assert(spec_mlkem768_encapsulate(client_ml_kem_ek@, kem_randomness@) == (
                s.spec_ml_kem_ciphertext(),
                s.spec_kem_shared_secret(),
                ));
            }
        }
        r
    }
}

/// Key agreement: when the client's decapsulation of the server's
/// ciphertext recovers the shared key the server encapsulated, the client
/// derives exactly the server's session keys.
pub proof fn lemma_handshake_keys_agree(client: ClientHandshakeState, server: ServerHandshakeState)
    requires
        client.spec_wf(),
        server.spec_answers(client.spec_x25519_public(), client.spec_ml_kem_ek()),
        spec_mlkem768_decapsulate(client.spec_ml_kem_seed(), server.spec_ml_kem_ciphertext())
            == server.spec_kem_shared_secret(),
    ensures
        client.spec_derived_keys(server.spec_x25519_public(), server.spec_ml_kem_ciphertext())
            == server.spec_session_keys(),
{
    let csk = client.spec_x25519_secret();
    assert(spec_x25519_shared(csk, server.spec_x25519_public()) == spec_x25519_shared(
        server.spec_ephemeral_secret(),
        spec_x25519_public(csk),
    ));
}

} // verus!
