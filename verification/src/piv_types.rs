//! PIV data objects and their BER-TLV encodings: the application property
//! template answered on SELECT, the dynamic authentication template of
//! GENERAL AUTHENTICATE, and the card holder unique identifier.

use vstd::prelude::*;
use crate::der::{tlv, push_tlv};

verus! {

/// Cryptographic algorithms announced by the application.
#[derive(Clone, Copy, Debug, PartialEq, Eq, Structural)]
pub enum Algorithms {
    Aes256,
    P256,
    /// non-standard!
    Ed255,
}

impl Algorithms {
    /// Algorithm identifier of SP 800-78, Table 6-2 (`0x22` is not standard).
    pub open spec fn spec_code(&self) -> u8 {
        match self {
            Algorithms::Aes256 => 0x0C,
            Algorithms::P256 => 0x11,
            Algorithms::Ed255 => 0x22,
        }
    }

    pub fn code(&self) -> (r: u8)
        ensures
            r == self.spec_code(),
    {
        match self {
            Algorithms::Aes256 => 0x0C,
            Algorithms::P256 => 0x11,
            Algorithms::Ed255 => 0x22,
        }
    }
}

/// The algorithm identifiers of SP 800-78 (`22` is a private one).
pub proof fn lemma_algorithm_identifiers(x: Algorithms)
    ensures
        (x == Algorithms::Aes256) <==> x.spec_code() == 0x0C,
        (x == Algorithms::P256) <==> x.spec_code() == 0x11,
        (x == Algorithms::Ed255) <==> x.spec_code() == 0x22,
{
}


/// `4F`: application identifier.
pub open spec fn tag_aid() -> Seq<u8> {
    seq![0x4fu8]
}

/// Encoding of the algorithm list: one identifier item (tag `40`) per
/// algorithm, then the mandatory object identifier item `06 01 00`.
pub open spec fn algorithms_encoding(algs: Seq<Algorithms>) -> Seq<u8>
    decreases algs.len(),
{
    if algs.len() == 0 {
        tlv(seq![0x06u8], seq![0x00u8])
    } else {
        tlv(seq![0x40u8], seq![algs[0].spec_code()]) + algorithms_encoding(algs.drop_first())
    }
}

/// Template of supported cryptographic algorithms.
#[derive(Clone, Copy)]
pub struct CryptographicAlgorithmTemplate<'a> {
    pub algorithms: &'a [Algorithms],
}

impl<'a> CryptographicAlgorithmTemplate<'a> {
    pub open spec fn spec_encoding(&self) -> Seq<u8> {
        algorithms_encoding(self.algorithms@)
    }

    /// Length the encoding announces: three bytes per item.
    pub fn encoded_length(&self) -> (r: u16)
        requires
            self.algorithms@.len() < 0x5000,
        ensures
            r == 3 * (self.algorithms@.len() + 1),
    {
        (3 * (self.algorithms.len() + 1)) as u16
    }

    pub fn encode(&self) -> (r: Vec<u8>)
        ensures
            r@ == self.spec_encoding(),
    {
        let mut out: Vec<u8> = Vec::new();
        let n = self.algorithms.len();
        let mut i: usize = 0;
        proof {
            assert(self.algorithms@.subrange(0, n as int) =~= self.algorithms@);
            assert(out@ + algorithms_encoding(self.algorithms@) =~= algorithms_encoding(self.algorithms@));
        }
        while i < n
            invariant
                n == self.algorithms@.len(),
                i <= n,
                out@ + algorithms_encoding(self.algorithms@.subrange(i as int, n as int)) == algorithms_encoding(
                    self.algorithms@,
                ),
            decreases n - i,
        {
            let code = self.algorithms[i].code();
            let ghost before = out@;
            push_tlv(&mut out, &[0x40u8], &[code]);
            proof {
                let rest = self.algorithms@.subrange(i as int, n as int);
                assert(rest.drop_first() =~= self.algorithms@.subrange(i + 1, n as int));
                assert(rest[0] == self.algorithms@[i as int]);
                assert(out@ + algorithms_encoding(rest.drop_first()) =~= before + algorithms_encoding(rest));
            }
            i = i + 1;
        }
        push_tlv(&mut out, &[0x06u8], &[0x00u8]);
        proof {
            assert(self.algorithms@.subrange(n as int, n as int) =~= Seq::<Algorithms>::empty());
            assert(self.algorithms@.subrange(0, n as int) =~= self.algorithms@);
        }
        out
    }
}

/// Coexistent tag allocation authority template: the RID whose tags are used.
#[derive(Clone, Copy)]
pub struct CoexistentTagAllocationAuthorityTemplate<'l> {
    pub application_identifier: &'l [u8],
}

/// The NIST RID.
pub const NIST_RID: [u8; 5] = [0xa0, 0x00, 0x00, 0x03, 0x08];

/// PIX of the PIV application (without RID, with version).
pub const PIV_PIX: [u8; 6] = [0x00, 0x00, 0x10, 0x00, 0x01, 0x00];

/// Application property template (tag `61`), answered on SELECT.
#[derive(Clone, Copy)]
pub struct ApplicationPropertyTemplate<'l> {
    /// Application identifier of application: PIX (without RID, with version)
    aid: &'l [u8],
    /// Text describing the application
    application_label: &'l [u8],
    /// Reference to the specification describing the application.
    application_url: &'l [u8],
    supported_cryptographic_algorithms: CryptographicAlgorithmTemplate<'l>,
    coexistent_tag_allocation_authority: CoexistentTagAllocationAuthorityTemplate<'l>,
}

impl<'l> ApplicationPropertyTemplate<'l> {
    pub closed spec fn spec_aid(&self) -> Seq<u8> {
        self.aid@
    }

    pub closed spec fn spec_label(&self) -> Seq<u8> {
        self.application_label@
    }

    pub closed spec fn spec_url(&self) -> Seq<u8> {
        self.application_url@
    }

    pub closed spec fn spec_algorithms(&self) -> Seq<Algorithms> {
        self.supported_cryptographic_algorithms.algorithms@
    }

    pub closed spec fn spec_rid(&self) -> Seq<u8> {
        self.coexistent_tag_allocation_authority.application_identifier@
    }

    /// Encoding: `61 L (4F aid) (50 label) (5F50 url) (AC algorithms)
    /// (79 (4F rid))`.
    pub open spec fn spec_encoding(&self) -> Seq<u8> {
        tlv(
            seq![0x61u8],
            tlv(tag_aid(), self.spec_aid()) + tlv(seq![0x50u8], self.spec_label()) + tlv(
                seq![0x5fu8, 0x50],
                self.spec_url(),
            ) + tlv(seq![0xacu8], algorithms_encoding(self.spec_algorithms())) + tlv(
                seq![0x79u8],
                tlv(tag_aid(), self.spec_rid()),
            ),
        )
    }

    /// PIV PIX, empty label and URL, no algorithms, NIST RID.
    pub fn default() -> (r: ApplicationPropertyTemplate<'static>)
        ensures
            r.spec_aid() == seq![0x00u8, 0x00, 0x10, 0x00, 0x01, 0x00],
            r.spec_label() == Seq::<u8>::empty(),
            r.spec_url() == Seq::<u8>::empty(),
            r.spec_algorithms() == Seq::<Algorithms>::empty(),
            r.spec_rid() == seq![0xa0u8, 0x00, 0x00, 0x03, 0x08],
    {
        let r = ApplicationPropertyTemplate {
            aid: &PIV_PIX,
            application_label: &[],
            application_url: &[],
            supported_cryptographic_algorithms: CryptographicAlgorithmTemplate { algorithms: &[] },
            coexistent_tag_allocation_authority: CoexistentTagAllocationAuthorityTemplate {
                application_identifier: &NIST_RID,
            },
        };
        assert(r.aid@ =~= seq![0x00u8, 0x00, 0x10, 0x00, 0x01, 0x00]);
        assert(r.application_label@ =~= Seq::<u8>::empty());
        assert(r.application_url@ =~= Seq::<u8>::empty());
        assert(r.supported_cryptographic_algorithms.algorithms@ =~= Seq::<Algorithms>::empty());
        assert(r.coexistent_tag_allocation_authority.application_identifier@ =~= seq![0xa0u8, 0x00, 0x00, 0x03, 0x08]);
        r
    }

    pub fn with_application_label(self, application_label: &'l [u8]) -> (r: Self)
        ensures
            r.spec_label() == application_label@,
            r.spec_aid() == self.spec_aid(),
            r.spec_url() == self.spec_url(),
            r.spec_algorithms() == self.spec_algorithms(),
            r.spec_rid() == self.spec_rid(),
    {
        ApplicationPropertyTemplate { application_label, ..self }
    }

    pub fn with_application_url(self, application_url: &'l [u8]) -> (r: Self)
        ensures
            r.spec_url() == application_url@,
            r.spec_aid() == self.spec_aid(),
            r.spec_label() == self.spec_label(),
            r.spec_algorithms() == self.spec_algorithms(),
            r.spec_rid() == self.spec_rid(),
    {
        ApplicationPropertyTemplate { application_url, ..self }
    }

    pub fn with_supported_cryptographic_algorithms(self, supported_cryptographic_algorithms: &'l [Algorithms]) -> (r: Self)
        ensures
            r.spec_algorithms() == supported_cryptographic_algorithms@,
            r.spec_aid() == self.spec_aid(),
            r.spec_label() == self.spec_label(),
            r.spec_url() == self.spec_url(),
            r.spec_rid() == self.spec_rid(),
    {
        ApplicationPropertyTemplate {
            supported_cryptographic_algorithms: CryptographicAlgorithmTemplate {
                algorithms: supported_cryptographic_algorithms,
            },
            ..self
        }
    }

    pub fn encode(&self) -> (r: Vec<u8>)
        ensures
            r@ == self.spec_encoding(),
    {
        let mut inner: Vec<u8> = Vec::new();
        push_tlv(&mut inner, &[0x4fu8], self.aid);
        push_tlv(&mut inner, &[0x50u8], self.application_label);
        push_tlv(&mut inner, &[0x5fu8, 0x50], self.application_url);
        let algs = self.supported_cryptographic_algorithms.encode();
        push_tlv(&mut inner, &[0xacu8], algs.as_slice());
        let mut rid: Vec<u8> = Vec::new();
        push_tlv(&mut rid, &[0x4fu8], self.coexistent_tag_allocation_authority.application_identifier);
        push_tlv(&mut inner, &[0x79u8], rid.as_slice());
        let mut out: Vec<u8> = Vec::new();
        push_tlv(&mut out, &[0x61u8], inner.as_slice());
        proof {
            assert(Seq::<u8>::empty() + tlv(tag_aid(), self.spec_rid()) =~= tlv(tag_aid(), self.spec_rid()));
            assert(out@ =~= self.spec_encoding());
        }
        out
    }
}

/// The application property template of the PIV application (PIV PIX,
/// NIST RID) with the given label, URL and algorithms.
pub open spec fn application_property_answer(label: Seq<u8>, url: Seq<u8>, algorithms: Seq<Algorithms>) -> Seq<u8> {
    tlv(
        seq![0x61u8],
        tlv(tag_aid(), seq![0x00u8, 0x00, 0x10, 0x00, 0x01, 0x00]) + tlv(seq![0x50u8], label) + tlv(
            seq![0x5fu8, 0x50],
            url,
        ) + tlv(seq![0xacu8], algorithms_encoding(algorithms)) + tlv(
            seq![0x79u8],
            tlv(tag_aid(), seq![0xa0u8, 0x00, 0x00, 0x03, 0x08]),
        ),
    )
}

/// An optional item: absent fields are not encoded.
pub open spec fn opt_tlv(tag: u8, v: Option<Seq<u8>>) -> Seq<u8> {
    match v {
        Some(s) => tlv(seq![tag], s),
        None => Seq::empty(),
    }
}

pub open spec fn opt_view(v: Option<&[u8]>) -> Option<Seq<u8>> {
    match v {
        Some(s) => Some(s@),
        None => None,
    }
}

/// Dynamic authentication template (tag `7C`) of GENERAL AUTHENTICATE.
#[derive(Clone, Copy)]
pub struct DynamicAuthenticationTemplate<'l> {
    /// Witness (tag `80`): encrypted data, decrypted by the card.
    witness: Option<&'l [u8]>,
    /// Challenge (tag `81`): clear data, encrypted by the card.
    challenge: Option<&'l [u8]>,
    /// Response (tag `82`).
    response: Option<&'l [u8]>,
    /// Exponentiation (tag `85`).
    exponentiation: Option<&'l [u8]>,
}

impl<'l> DynamicAuthenticationTemplate<'l> {
    pub closed spec fn fields(&self) -> (Option<Seq<u8>>, Option<Seq<u8>>, Option<Seq<u8>>, Option<Seq<u8>>) {
        (opt_view(self.witness), opt_view(self.challenge), opt_view(self.response), opt_view(self.exponentiation))
    }

    /// Encoding: `7C L` then the present items among `80`, `81`, `82`, `85`.
    pub open spec fn spec_encoding(&self) -> Seq<u8> {
        let (w, c, r, e) = self.fields();
        tlv(seq![0x7cu8], opt_tlv(0x80, w) + opt_tlv(0x81, c) + opt_tlv(0x82, r) + opt_tlv(0x85, e))
    }

    pub fn with_challenge(challenge: &'l [u8]) -> (r: Self)
        ensures
            r.fields() == (None::<Seq<u8>>, Some(challenge@), None::<Seq<u8>>, None::<Seq<u8>>),
    {
        DynamicAuthenticationTemplate { witness: None, challenge: Some(challenge), response: None, exponentiation: None }
    }

    pub fn with_exponentiation(exponentiation: &'l [u8]) -> (r: Self)
        ensures
            r.fields() == (None::<Seq<u8>>, None::<Seq<u8>>, None::<Seq<u8>>, Some(exponentiation@)),
    {
        DynamicAuthenticationTemplate { witness: None, challenge: None, response: None, exponentiation: Some(exponentiation) }
    }

    pub fn with_response(response: &'l [u8]) -> (r: Self)
        ensures
            r.fields() == (None::<Seq<u8>>, None::<Seq<u8>>, Some(response@), None::<Seq<u8>>),
    {
        DynamicAuthenticationTemplate { witness: None, challenge: None, response: Some(response), exponentiation: None }
    }

    pub fn with_witness(witness: &'l [u8]) -> (r: Self)
        ensures
            r.fields() == (Some(witness@), None::<Seq<u8>>, None::<Seq<u8>>, None::<Seq<u8>>),
    {
        DynamicAuthenticationTemplate { witness: Some(witness), challenge: None, response: None, exponentiation: None }
    }

    pub fn encode(&self) -> (r: Vec<u8>)
        ensures
            r@ == self.spec_encoding(),
    {
        let mut inner: Vec<u8> = Vec::new();
        if let Some(w) = self.witness {
            push_tlv(&mut inner, &[0x80u8], w);
        }
        let ghost a = inner@;
        if let Some(c) = self.challenge {
            push_tlv(&mut inner, &[0x81u8], c);
        }
        let ghost b = inner@;
        if let Some(r) = self.response {
            push_tlv(&mut inner, &[0x82u8], r);
        }
        let ghost c = inner@;
        if let Some(e) = self.exponentiation {
            push_tlv(&mut inner, &[0x85u8], e);
        }
        let mut out: Vec<u8> = Vec::new();
        push_tlv(&mut out, &[0x7cu8], inner.as_slice());
        proof {
            let (w, ch, re, ex) = self.fields();
            assert(a =~= opt_tlv(0x80, w));
            assert(b =~= opt_tlv(0x80, w) + opt_tlv(0x81, ch));
            assert(c =~= opt_tlv(0x80, w) + opt_tlv(0x81, ch) + opt_tlv(0x82, re));
            assert(inner@ =~= opt_tlv(0x80, w) + opt_tlv(0x81, ch) + opt_tlv(0x82, re) + opt_tlv(0x85, ex));
            assert(Seq::<u8>::empty() + tlv(seq![0x7cu8], inner@) =~= tlv(seq![0x7cu8], inner@));
        }
        out
    }
}

/// Card Holder Unique Identifier (tag `53`), without the deprecated elements.
#[derive(Clone, Copy)]
pub struct CardHolderUniqueIdentifier<'l> {
    fasc_n: &'l [u8],
    guid: &'l [u8],
    /// YYYYMMDD
    expiration_date: [u8; 8],
    cardholder_uuid: Option<&'l [u8]>,
    issuer_asymmetric_signature: &'l [u8],
}

impl<'l> CardHolderUniqueIdentifier<'l> {
    pub closed spec fn fields(&self) -> (Seq<u8>, Seq<u8>, Seq<u8>, Option<Seq<u8>>, Seq<u8>) {
        (self.fasc_n@, self.guid@, self.expiration_date@, opt_view(self.cardholder_uuid), self.issuer_asymmetric_signature@)
    }

    /// Encoding: `53 L (30 FASC-N) (34 GUID) (35 expiration) [36 UUID]
    /// (3E signature) (FE)` with an empty error detection code.
    pub open spec fn spec_encoding(&self) -> Seq<u8> {
        let (f, g, x, u, s) = self.fields();
        tlv(
            seq![0x53u8],
            tlv(seq![0x30u8], f) + tlv(seq![0x34u8], g) + tlv(seq![0x35u8], x) + opt_tlv(0x36, u) + tlv(
                seq![0x3eu8],
                s,
            ) + tlv(seq![0xfeu8], Seq::empty()),
        )
    }

    /// The non-federal identifier for a card GUID: FASC-N `9999`, expiring
    /// `99991231`, no cardholder UUID, a single-space signature.
    pub fn with_guid(guid: &'l [u8]) -> (r: Self)
        ensures
            r.fields() == (seq![0x99u8, 0x99], guid@, seq![0x39u8, 0x39, 0x39, 0x39, 0x31, 0x32, 0x33, 0x31], None::<
                Seq<u8>,
            >, seq![0x20u8]),
    {
        let r = CardHolderUniqueIdentifier {
            fasc_n: &[0x99, 0x99],
            guid,
            expiration_date: [0x39, 0x39, 0x39, 0x39, 0x31, 0x32, 0x33, 0x31],
            cardholder_uuid: None,
            issuer_asymmetric_signature: &[0x20],
        };
        assert(r.fasc_n@ =~= seq![0x99u8, 0x99]);
        assert(r.expiration_date@ =~= seq![0x39u8, 0x39, 0x39, 0x39, 0x31, 0x32, 0x33, 0x31]);
        assert(r.issuer_asymmetric_signature@ =~= seq![0x20u8]);
        r
    }

    pub fn encode(&self) -> (r: Vec<u8>)
        ensures
            r@ == self.spec_encoding(),
    {
        let mut inner: Vec<u8> = Vec::new();
        push_tlv(&mut inner, &[0x30u8], self.fasc_n);
        push_tlv(&mut inner, &[0x34u8], self.guid);
        push_tlv(&mut inner, &[0x35u8], &self.expiration_date);
        let ghost a = inner@;
        if let Some(u) = self.cardholder_uuid {
            push_tlv(&mut inner, &[0x36u8], u);
        }
        let ghost b = inner@;
        push_tlv(&mut inner, &[0x3eu8], self.issuer_asymmetric_signature);
        push_tlv(&mut inner, &[0xfeu8], &[]);
        let mut out: Vec<u8> = Vec::new();
        push_tlv(&mut out, &[0x53u8], inner.as_slice());
        proof {
            let (f, g, x, u, s) = self.fields();
            assert(b =~= a + opt_tlv(0x36, u));
            assert(inner@ =~= tlv(seq![0x30u8], f) + tlv(seq![0x34u8], g) + tlv(seq![0x35u8], x) + opt_tlv(0x36, u)
                + tlv(seq![0x3eu8], s) + tlv(seq![0xfeu8], Seq::empty()));
            assert(out@ =~= self.spec_encoding());
        }
        out
    }
}

} // verus!
