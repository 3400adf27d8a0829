//! SHA-256 digests and their hexadecimal text.
use vstd::prelude::*;
use vstd::utf8::encode_utf8;

use crate::config::PrivateEgressConfig;

verus! {

/// The error of `hex` on a text that it cannot decode.
#[verifier::external_type_specification]
#[verifier::external_body]
pub struct ExFromHexError(hex::FromHexError);

/// The SHA-256 digest of some bytes, as `sha2` computes it.
pub uninterp spec fn sha256(data: Seq<u8>) -> Seq<u8>;

/// `sha2::Sha256::digest`. The digest depends on the data alone.
#[verifier::external_body]
fn sha256_bytes(data: &[u8]) -> (r: [u8; 32])
    ensures
        r@ == sha256(data@),
{
    <sha2::Sha256 as sha2::Digest>::digest(data).into()
}

/// The lower case hexadecimal digit of a value below sixteen.
pub open spec fn hex_digit(v: int) -> char {
    if v < 10 {
        (48 + v) as char
    } else {
        (87 + v) as char
    }
}

/// Bytes in lower case hexadecimal, two digits for each.
pub open spec fn hex_text(bytes: Seq<u8>) -> Seq<char> {
    Seq::new(
        2 * bytes.len(),
        |i: int|
            if i % 2 == 0 {
                hex_digit(bytes[i / 2] as int / 16)
            } else {
                hex_digit(bytes[i / 2] as int % 16)
            },
    )
}

/// `hex::encode`: two lower case digits for each byte, the high half first.
#[verifier::external_body]
pub(crate) fn hex_encode(bytes: &[u8]) -> (r: String)
    ensures
        r@ == hex_text(bytes@),
{
    hex::encode(bytes)
}

/// The value of a hexadecimal digit in either case.
pub open spec fn hex_value(c: char) -> Option<int> {
    if '0' <= c <= '9' {
        Some(c as int - 48)
    } else if 'a' <= c <= 'f' {
        Some(c as int - 87)
    } else if 'A' <= c <= 'F' {
        Some(c as int - 55)
    } else {
        None
    }
}

/// Whether a text is an even number of hexadecimal digits.
pub open spec fn is_hex(text: Seq<char>) -> bool {
    &&& text.len() % 2 == 0
    &&& forall|i: int| 0 <= i < text.len() ==> hex_value(#[trigger] text[i]) is Some
}

/// The bytes that a hexadecimal text stands for.
pub open spec fn hex_bytes(text: Seq<char>) -> Seq<u8> {
    Seq::new(
        text.len() / 2,
        |i: int| (hex_value(text[2 * i])->0 * 16 + hex_value(text[2 * i + 1])->0) as u8,
    )
}

/// A SHA-256 digest.
#[derive(Debug)]
pub struct Sha256Hash {
    bytes: Vec<u8>,
}

impl View for Sha256Hash {
    type V = Seq<u8>;

    closed spec fn view(&self) -> Seq<u8> {
        self.bytes@
    }
}

/// The digest that a text of sixty-four hexadecimal digits stands for.
pub open spec fn digest_of_text(text: Seq<char>) -> Option<Seq<u8>> {
    if is_hex(text) && text.len() == 64 {
        Some(hex_bytes(text))
    } else {
        None
    }
}

/// `hex::FromHex::from_hex` for an array of thirty-two bytes: takes sixty-four
/// digits in either case, and nothing else; each two digits give a byte, the high
/// half first. What the error says of the text is left to its own text.
#[verifier::external_body]
fn hex_decode(text: &str) -> (r: Result<[u8; 32], hex::FromHexError>)
    ensures
        match r {
            Ok(bytes) => digest_of_text(text@) == Some(bytes@),
            Err(_) => digest_of_text(text@) is None,
        },
{
    <[u8; 32] as hex::FromHex>::from_hex(text)
}

impl Sha256Hash {
    /// The digest of `data`.
    pub fn of(data: &[u8]) -> (r: Self)
        ensures
            r@ == sha256(data@),
            r@.len() == 32,
    {
        let digest = sha256_bytes(data);
        let bytes = vstd::slice::slice_to_vec(digest.as_slice());
        Sha256Hash { bytes }
    }

    /// Reads a digest from its hexadecimal text.
    pub fn from_hex(text: &str) -> (r: Result<Self, hex::FromHexError>)
        ensures
            match r {
                Ok(hash) => digest_of_text(text@) == Some(hash@),
                Err(_) => digest_of_text(text@) is None,
            },
    {
        match hex_decode(text) {
            Ok(digest) => Ok(
                Sha256Hash { bytes: vstd::slice::slice_to_vec(digest.as_slice()) },
            ),
            Err(error) => Err(error),
        }
    }

    /// The digest in lower case hexadecimal.
    pub fn to_text(&self) -> (s: String)
        ensures
            s@ == hex_text(self@),
    {
        hex_encode(self.bytes.as_slice())
    }

    /// Whether two digests are the same.
    pub fn same(&self, other: &Self) -> (r: bool)
        ensures
            r == (self@ == other@),
    {
        same_bytes(self.bytes.as_slice(), other.bytes.as_slice())
    }
}

/// Whether two slices hold the same bytes.
fn same_bytes(a: &[u8], b: &[u8]) -> (r: bool)
    ensures
        r == (a@ == b@),
{
    if a.len() != b.len() {
        return false;
    }
    for i in 0..a.len()
        invariant
            a@.len() == b@.len(),
            forall|j: int| 0 <= j < i ==> a@[j] == b@[j],
    {
        if a[i] != b[i] {
            return false;
        }
    }
    proof {
        assert(a@ =~= b@);
    }
    true
}

/// The digest of a text, in lower case hexadecimal.
pub open spec fn text_digest(text: Seq<char>) -> Seq<char> {
    hex_text(sha256(encode_utf8(text)))
}

/// What a deployment of the gateway depends on: the format of its
/// configuration, the digests of the two secrets, and the selectors.
pub open spec fn deployment_text(
    config: PrivateEgressConfig,
    subscription_digest: Seq<u8>,
    expected_digest: Seq<u8>,
) -> Seq<char> {
    "version=2\nsubscription="@ + hex_text(subscription_digest) + "\nexpected="@ + hex_text(
        expected_digest,
    ) + "\nentry_group="@ + config.entry_group@ + "\nentry_choice="@ + config.entry_choice@
        + "\nexit_group="@ + config.exit_group@ + "\nexit_prefix="@ + config.exit_choice_prefix@
        + "\nexit_suffix="@ + config.exit_choice_suffix@ + "\n"@
}

/// What a deployment of the gateway with these secrets depends on.
pub open spec fn deployment_source(
    config: PrivateEgressConfig,
    subscription: Seq<char>,
    expected_egress: Seq<char>,
) -> Seq<char> {
    deployment_text(
        config,
        sha256(encode_utf8(subscription)),
        sha256(encode_utf8(expected_egress)),
    )
}

/// The fingerprint of a deployment of the gateway: the digest of all that it
/// depends on. The secrets enter it only through their own digests.
pub fn gateway_deployment_fingerprint(
    config: &PrivateEgressConfig,
    subscription: &str,
    expected_egress: &str,
) -> (r: String)
    ensures
        r@ == text_digest(deployment_source(*config, subscription@, expected_egress@)),
        r@.len() == 64,
{
    let source = "version=2\nsubscription=".to_owned().concat(
        Sha256Hash::of(subscription.as_bytes()).to_text().as_str(),
    ).concat("\nexpected=").concat(
        Sha256Hash::of(expected_egress.as_bytes()).to_text().as_str(),
    ).concat("\nentry_group=").concat(config.entry_group.as_str()).concat(
        "\nentry_choice=",
    ).concat(config.entry_choice.as_str()).concat("\nexit_group=").concat(
        config.exit_group.as_str(),
    ).concat("\nexit_prefix=").concat(config.exit_choice_prefix.as_str()).concat(
        "\nexit_suffix=",
    ).concat(config.exit_choice_suffix.as_str()).concat("\n");
    Sha256Hash::of(source.as_str().as_bytes()).to_text()
}

/// The controller secret made of random bytes: their hexadecimal text.
pub fn random_secret(bytes: &[u8]) -> (r: String)
    ensures
        r@ == hex_text(bytes@),
        r@.len() == 2 * bytes@.len(),
{
    hex_encode(bytes)
}

/// A digest is read back from its own text.
pub proof fn digest_text_reads_back(digest: Seq<u8>)
    requires
        digest.len() == 32,
    ensures
        digest_of_text(hex_text(digest)) == Some(digest),
{
    let text = hex_text(digest);
    assert forall|i: int| 0 <= i < text.len() implies hex_value(#[trigger] text[i]) is Some by {
        lemma_hex_digit(digest[i / 2] as int / 16);
        lemma_hex_digit(digest[i / 2] as int % 16);
    }
    assert forall|i: int| 0 <= i < 32 implies #[trigger] hex_bytes(text)[i] == digest[i] by {
        lemma_hex_digit(digest[i] as int / 16);
        lemma_hex_digit(digest[i] as int % 16);
        assert((2 * i) / 2 == i && (2 * i + 1) / 2 == i);
        assert((2 * i) % 2 == 0 && (2 * i + 1) % 2 == 1);
    }
    assert(hex_bytes(text) =~= digest);
}

proof fn lemma_hex_digit(v: int)
    requires
        0 <= v < 16,
    ensures
        hex_value(hex_digit(v)) == Some(v),
{
}

/// Bytes are known by their hexadecimal text.
pub proof fn hex_text_is_injective(a: Seq<u8>, b: Seq<u8>)
    requires
        hex_text(a) == hex_text(b),
    ensures
        a == b,
{
    assert(2 * a.len() == hex_text(a).len() == hex_text(b).len() == 2 * b.len());
    assert forall|i: int| 0 <= i < a.len() implies a[i] == b[i] by {
        assert((2 * i) / 2 == i && (2 * i + 1) / 2 == i);
        assert((2 * i) % 2 == 0 && (2 * i + 1) % 2 == 1);
        assert(hex_text(a)[2 * i] == hex_digit(a[i] as int / 16));
        assert(hex_text(b)[2 * i] == hex_digit(b[i] as int / 16));
        assert(hex_text(a)[2 * i + 1] == hex_digit(a[i] as int % 16));
        assert(hex_text(b)[2 * i + 1] == hex_digit(b[i] as int % 16));
        lemma_hex_digit(a[i] as int / 16);
        lemma_hex_digit(b[i] as int / 16);
        lemma_hex_digit(a[i] as int % 16);
        lemma_hex_digit(b[i] as int % 16);
    }
    assert(a =~= b);
}

/// What is fingerprinted tells the digests of both secrets apart: it is the
/// same for two deployments only where those digests are.
pub proof fn fingerprint_tracks_both_secrets(
    a: PrivateEgressConfig,
    b: PrivateEgressConfig,
    a_subscription: Seq<u8>,
    b_subscription: Seq<u8>,
    a_expected: Seq<u8>,
    b_expected: Seq<u8>,
)
    requires
        a_subscription.len() == 32,
        b_subscription.len() == 32,
        a_expected.len() == 32,
        b_expected.len() == 32,
        deployment_text(a, a_subscription, a_expected) == deployment_text(
            b,
            b_subscription,
            b_expected,
        ),
    ensures
        a_subscription == b_subscription,
        a_expected == b_expected,
{
    let head = "version=2\nsubscription="@;
    let middle = "\nexpected="@;
    let text_a = deployment_text(a, a_subscription, a_expected);
    let text_b = deployment_text(b, b_subscription, b_expected);
    let start = head.len() as int;
    let later = start + 64 + middle.len();
    assert(text_a.subrange(start, start + 64) =~= hex_text(a_subscription));
    assert(text_b.subrange(start, start + 64) =~= hex_text(b_subscription));
    assert(text_a.subrange(later, later + 64) =~= hex_text(a_expected));
    assert(text_b.subrange(later, later + 64) =~= hex_text(b_expected));
    hex_text_is_injective(a_subscription, b_subscription);
    hex_text_is_injective(a_expected, b_expected);
}

/// Whether a text is one line without its end.
pub open spec fn is_one_line(text: Seq<char>) -> bool {
    !text.contains('\n')
}

/// Whether every selector is one line.
pub open spec fn has_one_line_selectors(config: PrivateEgressConfig) -> bool {
    &&& is_one_line(config.entry_group@)
    &&& is_one_line(config.entry_choice@)
    &&& is_one_line(config.exit_group@)
    &&& is_one_line(config.exit_choice_prefix@)
    &&& is_one_line(config.exit_choice_suffix@)
}

/// What is fingerprinted tells selectors of one line each apart: it is the same
/// for two deployments only where all five are.
pub proof fn fingerprint_tracks_every_selector(
    a: PrivateEgressConfig,
    b: PrivateEgressConfig,
    a_subscription: Seq<u8>,
    b_subscription: Seq<u8>,
    a_expected: Seq<u8>,
    b_expected: Seq<u8>,
)
    requires
        has_one_line_selectors(a),
        has_one_line_selectors(b),
        a_subscription.len() == 32,
        b_subscription.len() == 32,
        a_expected.len() == 32,
        b_expected.len() == 32,
        deployment_text(a, a_subscription, a_expected) == deployment_text(
            b,
            b_subscription,
            b_expected,
        ),
    ensures
        a.entry_group@ == b.entry_group@,
        a.entry_choice@ == b.entry_choice@,
        a.exit_group@ == b.exit_group@,
        a.exit_choice_prefix@ == b.exit_choice_prefix@,
        a.exit_choice_suffix@ == b.exit_choice_suffix@,
{
    reveal_strlit("\n");
    reveal_strlit("\nentry_choice=");
    reveal_strlit("\nexit_group=");
    reveal_strlit("\nexit_prefix=");
    reveal_strlit("\nexit_suffix=");
    let start = "version=2\nsubscription="@.len() + 64 + "\nexpected="@.len() + 64
        + "\nentry_group="@.len();
    let (a5, b5) = (seq![], seq![]);
    let (a4, b4) = (
        a.exit_choice_suffix@ + "\n"@ + a5,
        b.exit_choice_suffix@ + "\n"@ + b5,
    );
    let (a3, b3) = (
        a.exit_choice_prefix@ + "\nexit_suffix="@ + a4,
        b.exit_choice_prefix@ + "\nexit_suffix="@ + b4,
    );
    let (a2, b2) = (
        a.exit_group@ + "\nexit_prefix="@ + a3,
        b.exit_group@ + "\nexit_prefix="@ + b3,
    );
    let (a1, b1) = (
        a.entry_choice@ + "\nexit_group="@ + a2,
        b.entry_choice@ + "\nexit_group="@ + b2,
    );
    let (a0, b0) = (
        a.entry_group@ + "\nentry_choice="@ + a1,
        b.entry_group@ + "\nentry_choice="@ + b1,
    );
    assert(deployment_text(a, a_subscription, a_expected).skip(start as int) =~= a0);
    assert(deployment_text(b, b_subscription, b_expected).skip(start as int) =~= b0);
    lemma_first_line(a.entry_group@, b.entry_group@, "\nentry_choice="@, a1, b1);
    lemma_first_line(a.entry_choice@, b.entry_choice@, "\nexit_group="@, a2, b2);
    lemma_first_line(a.exit_group@, b.exit_group@, "\nexit_prefix="@, a3, b3);
    lemma_first_line(a.exit_choice_prefix@, b.exit_choice_prefix@, "\nexit_suffix="@, a4, b4);
    lemma_first_line(a.exit_choice_suffix@, b.exit_choice_suffix@, "\n"@, a5, b5);
}

proof fn lemma_first_line(
    a: Seq<char>,
    b: Seq<char>,
    end: Seq<char>,
    a_rest: Seq<char>,
    b_rest: Seq<char>,
)
    requires
        is_one_line(a),
        is_one_line(b),
        end.len() > 0,
        end[0] == '\n',
        a + end + a_rest == b + end + b_rest,
    ensures
        a == b,
        a_rest == b_rest,
{
    let whole_a = a + end + a_rest;
    let whole_b = b + end + b_rest;
    assert(whole_a[a.len() as int] == '\n');
    assert(whole_b[b.len() as int] == '\n');
    if a.len() < b.len() {
        assert(b[a.len() as int] == whole_b[a.len() as int]);
    } else if b.len() < a.len() {
        assert(a[b.len() as int] == whole_a[b.len() as int]);
    }
    assert(a =~= whole_a.take(a.len() as int));
    assert(b =~= whole_b.take(b.len() as int));
    assert(a_rest =~= whole_a.skip((a.len() + end.len()) as int));
    assert(b_rest =~= whole_b.skip((b.len() + end.len()) as int));
}

/// Where the secrets are kept plays no part in the fingerprint.
pub proof fn fingerprint_ignores_where_secrets_are_kept(
    a: PrivateEgressConfig,
    b: PrivateEgressConfig,
    subscription: Seq<char>,
    expected_egress: Seq<char>,
)
    requires
        a.entry_group@ == b.entry_group@,
        a.entry_choice@ == b.entry_choice@,
        a.exit_group@ == b.exit_group@,
        a.exit_choice_prefix@ == b.exit_choice_prefix@,
        a.exit_choice_suffix@ == b.exit_choice_suffix@,
    ensures
        deployment_source(a, subscription, expected_egress) == deployment_source(
            b,
            subscription,
            expected_egress,
        ),
{
}

} // verus!
